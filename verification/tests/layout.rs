//! Size negotiation, transforms and the atlas packer, on concrete
//! values.

use memevis::hint::{Hint, SzOpt};
use memevis::layer::{LayerTf, LclLayer};
use memevis::layout::{compute_child_info, natural_layer, LayoutInfo};
use memevis::atlas::{AtlasError, Packer};
use memevis::types::{lpt, lsz, lz, trt, tsz, LclPt, LclZ, Pt2D, ZOrder};

#[test]
fn test_child_info_fill() {
    let child_info = compute_child_info(
        &LayoutInfo::zero().hint(Hint::new().opt_wh(SzOpt::Fill).req(lsz(200, 200))),
        lpt(10, 15),
        lz(1),
        &Hint::new().opt_wh(SzOpt::Fill).req(lsz(100, 100)),
    );
    assert_eq!(natural_layer(&child_info.hint), LclLayer::from_sz(lsz(190, 185)));

    // A fill child with a requested size under a parent of unknown
    // size should use its own requested size.
    let child_info = compute_child_info(
        &LayoutInfo::zero().hint(Hint::new().opt_wh(SzOpt::Fill).min(lsz(50, 50))),
        lpt(10, 15),
        lz(1),
        &Hint::new().opt_wh(SzOpt::Fill).req(lsz(100, 100)),
    );
    assert_eq!(natural_layer(&child_info.hint), LclLayer::from_sz(lsz(100, 100)));
}

#[test]
fn test_child_info_wrap() {
    let child_info = compute_child_info(
        &LayoutInfo::zero().hint(Hint::new().opt_wh(SzOpt::Wrap).req(lsz(200, 200))),
        lpt(10, 15),
        lz(1),
        &Hint::new().opt_wh(SzOpt::Wrap).req(lsz(300, 300)).min(lsz(100, 100)),
    );
    assert_eq!(natural_layer(&child_info.hint), LclLayer::from_sz(lsz(100, 100)));
}

#[test]
fn test_child_info_exact() {
    // Exact should not use the parent request when it has nothing of
    // its own - useful for windows.
    let child_info = compute_child_info(
        &LayoutInfo::zero().hint(Hint::new().opt_wh(SzOpt::Exact).req(lsz(1000, 1000))),
        lpt(10, 15),
        lz(1),
        &Hint::new().opt_wh(SzOpt::Exact),
    );
    assert_eq!(natural_layer(&child_info.hint), LclLayer::from_sz(lsz(0, 0)));

    // Exact should fall back to wrap behaviour without a requested
    // size - useful for windows.
    let child_info = compute_child_info(
        &LayoutInfo::zero().hint(Hint::new().opt_wh(SzOpt::Exact).req(lsz(1000, 1000))),
        lpt(10, 15),
        lz(1),
        &Hint::new().opt_wh(SzOpt::Exact).min(lsz(100, 100)),
    );
    assert_eq!(natural_layer(&child_info.hint), LclLayer::from_sz(lsz(100, 100)));
}

#[test]
fn test_natural_layer() {
    const OPTS: [SzOpt; 3] = [SzOpt::Wrap, SzOpt::Fill, SzOpt::Exact];

    // Exact with a requested size should be exact.
    assert_eq!(natural_layer(&Hint::make_exact(lsz(100, 50))), LclLayer::from_sz(lsz(100, 50)));

    // Exact should fall back to wrap behaviour without a requested size.
    assert_eq!(
        natural_layer(&Hint::new().opt_wh(SzOpt::Wrap).min(lsz(200, 200))),
        LclLayer::from_sz(lsz(200, 200))
    );

    // Wrap with a requested size but no minimum should be the request.
    assert_eq!(
        natural_layer(&Hint::new().opt_wh(SzOpt::Wrap).req(lsz(100, 50))),
        LclLayer::from_sz(lsz(100, 50))
    );

    // The minimum should override the requested size for wrap.
    assert_eq!(
        natural_layer(&Hint::new().opt_wh(SzOpt::Wrap).req(lsz(300, 350)).min(lsz(200, 200))),
        LclLayer::from_sz(lsz(200, 200))
    );

    let sz = lsz(100, 5);
    for opt_w in OPTS.iter().copied() {
        // Combinations that select only one size.
        for opt_h in OPTS.iter().copied() {
            let opt = (opt_w, opt_h);
            assert_eq!(natural_layer(&Hint::new().opt(opt).min(sz)), LclLayer::from_sz(sz));
            assert_eq!(natural_layer(&Hint::new().opt(opt).max(sz)), LclLayer::from_sz(sz));
            assert_eq!(natural_layer(&Hint::new().opt(opt).req(sz)), LclLayer::from_sz(sz));

            assert_eq!(natural_layer(&Hint::new().opt(opt).min(sz).max(sz)), LclLayer::from_sz(sz));
            assert_eq!(natural_layer(&Hint::new().opt(opt).min(sz).req(sz)), LclLayer::from_sz(sz));
            assert_eq!(natural_layer(&Hint::new().opt(opt).max(sz).req(sz)), LclLayer::from_sz(sz));

            assert_eq!(
                natural_layer(&Hint::new().opt(opt).min(sz).max(sz).req(sz)),
                LclLayer::from_sz(sz)
            );
        }
    }
}

#[test]
fn test_packer() {
    let mut p = Packer::new(tsz(5, 6));
    assert_eq!(Some(trt(0, 0, 1, 1)), p.pack(tsz(1, 1)));
    assert_eq!(Some(trt(1, 0, 1, 1)), p.pack(tsz(1, 1)));
    assert_eq!(Some(trt(2, 0, 2, 2)), p.pack(tsz(2, 2)));
    assert_eq!(Some(trt(0, 2, 2, 2)), p.pack(tsz(2, 2)));
    assert_eq!(Some(trt(2, 2, 1, 3)), p.pack(tsz(1, 3)));
    assert_eq!(Some(trt(3, 2, 2, 1)), p.pack(tsz(2, 1)));
    assert_eq!(Some(trt(0, 5, 1, 1)), p.pack(tsz(1, 1)));
    assert_eq!(None, p.pack(tsz(1, 2)));
    assert_eq!(None, p.pack(tsz(5, 1)));
}

#[test]
fn packer_rejects_oversize_for_fresh_row() {
    // A request wider than the bin can never open a fresh row.
    let mut p = Packer::new(tsz(5, 6));
    assert_eq!(None, p.pack(tsz(7, 1)));
}

#[test]
fn transform_inverse_is_identity() {
    let t: LayerTf<memevis::types::LclType, memevis::types::PrtType> =
        LayerTf::new(Pt2D::new(12, -7), ZOrder::new(3));
    let back: LayerTf<memevis::types::PrtType, memevis::types::LclType> = t.inv();
    let id: LayerTf<memevis::types::LclType, memevis::types::LclType> = t.concat(&back);
    assert_eq!(id.off.x, 0);
    assert_eq!(id.off.y, 0);
    assert_eq!(id.z.z, 0);
}

#[test]
fn transform_moves_rect_not_size() {
    let t: LayerTf<memevis::types::LclType, memevis::types::PrtType> =
        LayerTf::new(Pt2D::new(10, 20), ZOrder::new(2));
    let r = t.rt(memevis::types::lrt(1, 2, 30, 40));
    assert_eq!((r.x, r.y, r.w, r.h), (11, 22, 30, 40));
    let z = t.z_of(memevis::types::lz(5));
    assert_eq!(z.z, 7);
}

#[test]
fn wrap_priority_order() {
    // min beats requested beats parent-offered beats max, each
    // clamped.
    let parent = LayoutInfo::zero().hint(Hint::new().opt_wh(SzOpt::Wrap).req(lsz(80, 80)));
    let ci = compute_child_info(
        &parent,
        LclPt::zero(),
        LclZ::new(1),
        &Hint::new().opt_wh(SzOpt::Wrap).min(lsz(10, 10)).req(lsz(20, 20)),
    );
    assert_eq!(natural_layer(&ci.hint), LclLayer::from_sz(lsz(10, 10)));

    let ci = compute_child_info(
        &parent,
        LclPt::zero(),
        LclZ::new(1),
        &Hint::new().opt_wh(SzOpt::Wrap).req(lsz(20, 20)),
    );
    assert_eq!(natural_layer(&ci.hint), LclLayer::from_sz(lsz(20, 20)));

    let ci = compute_child_info(&parent, LclPt::zero(), LclZ::new(1), &Hint::new());
    assert_eq!(natural_layer(&ci.hint), LclLayer::from_sz(lsz(80, 80)));

    let ci = compute_child_info(
        &LayoutInfo::zero().hint(Hint::new().opt_wh(SzOpt::Wrap).max(lsz(60, 60))),
        LclPt::zero(),
        LclZ::new(1),
        &Hint::new(),
    );
    assert_eq!(natural_layer(&ci.hint), LclLayer::from_sz(lsz(60, 60)));
}

#[test]
fn atlas_rejects_empty_allocation() {
    let mut ts = memevis::texture::TexStore::new();
    let mut a = memevis::atlas::Atlas::new(&mut ts);
    assert_eq!(a.allocate(tsz(0, 5)), Err(AtlasError::EmptySize));
    assert_eq!(a.allocate(tsz(3, 3)), Ok(0));
    assert_eq!(a.allocate(tsz(3, 3)), Ok(1));
}

#[test]
fn atlas_reports_full() {
    let mut p = Packer::new(tsz(4, 4));
    assert!(p.pack(tsz(4, 4)).is_some());
    assert_eq!(None, p.pack(tsz(1, 1)));
}
