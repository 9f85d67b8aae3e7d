//! Input arbitration, the retained store and the persistence codec,
//! on concrete scenarios.

use memevis::codec::{load_store, save_store};
use memevis::hint::Hint;
use memevis::ident::combine_ids;
use memevis::io::Io;
use memevis::layer::Layer;
use memevis::memory::Memory;
use memevis::resize::{ResizeDir, WindowState};
use memevis::layout::LayoutInfo;
use memevis::resize::CursorIcon;
use memevis::resize_layout::ResizeLayout;
use memevis::types::{gpt, gsz, lrt, lpt, lsz, GblZ, ZOrder};
use memevis::vis::Vis;

#[test]
fn hover_higher_z_wins_regardless_of_order() {
    // A at z=1 then B at z=2: B wins next frame.
    let mut io = Io::new(gsz(800, 600));
    io.mouse_req(ZOrder::new(1), "a");
    io.mouse_req(ZOrder::new(2), "b");
    io.begin();
    assert_eq!(io.has_mouse.as_deref(), Some("b"));

    // B at z=2 then A at z=1: B still wins.
    let mut io = Io::new(gsz(800, 600));
    io.mouse_req(ZOrder::new(2), "b");
    io.mouse_req(ZOrder::new(1), "a");
    io.begin();
    assert_eq!(io.has_mouse.as_deref(), Some("b"));
}

#[test]
fn hover_equal_z_last_writer_wins() {
    let mut io = Io::new(gsz(800, 600));
    io.mouse_req(ZOrder::new(3), "a");
    io.mouse_req(ZOrder::new(3), "b");
    io.begin();
    assert_eq!(io.has_mouse.as_deref(), Some("b"));
}

#[test]
fn capture_beats_hover() {
    let mut io = Io::new(gsz(800, 600));
    io.mouse_req(ZOrder::new(9), "hoverer");
    io.mouse_capture(ZOrder::new(1), "captor");
    io.begin();
    assert_eq!(io.mouse_captured.as_deref(), Some("captor"));
    assert_eq!(io.has_mouse.as_deref(), Some("captor"));
}

#[test]
fn capture_prolonged_not_stolen() {
    let mut io = Io::new(gsz(800, 600));
    // X takes capture: the edge flag fires the frame ownership moves.
    io.mouse_capture(ZOrder::new(1), "x");
    io.begin();
    assert_eq!(io.mouse_captured.as_deref(), Some("x"));
    assert!(io.mouse_just_captured);

    // X prolongs; Y asks at a much higher z and must not steal. The
    // owner does not change, so the edge flag stays down.
    io.mouse_capture(ZOrder::new(1), "x");
    io.mouse_capture(ZOrder::new(50), "y");
    io.begin();
    assert_eq!(io.mouse_captured.as_deref(), Some("x"));
    assert!(!io.mouse_just_captured);

    // Y asks first, X prolongs after: X still keeps it.
    io.mouse_capture(ZOrder::new(50), "y");
    io.mouse_capture(ZOrder::new(1), "x");
    io.begin();
    assert_eq!(io.mouse_captured.as_deref(), Some("x"));
}

#[test]
fn capture_edge_fires_on_release_too() {
    let mut io = Io::new(gsz(800, 600));
    io.mouse_capture(ZOrder::new(1), "x");
    io.begin();
    assert!(io.mouse_just_captured);

    // No prolonging request: ownership falls back to nobody, which is
    // a change of owner and fires the edge again.
    io.begin();
    assert_eq!(io.mouse_captured, None);
    assert!(io.mouse_just_captured);

    // And stays down while nobody owns capture.
    io.begin();
    assert!(!io.mouse_just_captured);
}

#[test]
fn capture_request_supersede_needs_geq_z() {
    let mut io = Io::new(gsz(800, 600));
    io.mouse_capture(ZOrder::new(5), "a");
    io.mouse_capture(ZOrder::new(4), "b");  // lower z: refused
    io.begin();
    assert_eq!(io.mouse_captured.as_deref(), Some("a"));

    let mut io = Io::new(gsz(800, 600));
    io.mouse_capture(ZOrder::new(5), "a");
    io.mouse_capture(ZOrder::new(5), "b");  // equal z: later wins
    io.begin();
    assert_eq!(io.mouse_captured.as_deref(), Some("b"));
}

#[test]
fn scroll_accumulates_and_clears() {
    let mut io = Io::new(gsz(800, 600));
    io.on_scroll(memevis::types::pt(1, -2));
    io.on_scroll(memevis::types::pt(3, 5));
    assert_eq!((io.mouse_scroll.x, io.mouse_scroll.y), (4, 3));
    io.end();
    assert_eq!((io.mouse_scroll.x, io.mouse_scroll.y), (0, 0));
}

#[test]
fn release_edge_fires_once() {
    let mut io = Io::new(gsz(800, 600));
    io.on_mouse_button(true);
    assert!(io.is_mouse_pressed);
    assert!(!io.mouse_just_released);
    io.on_mouse_button(false);
    assert!(io.mouse_just_released);
    io.end();
    assert!(!io.mouse_just_released);
}

#[test]
fn combine_ids_concatenates_with_separator() {
    assert_eq!(combine_ids(&["top", "button", "ok"]), "##top##button##ok");
    assert_eq!(combine_ids(&[]), "");
}

#[test]
fn memory_window_state_persists_per_pair() {
    let mut mem = Memory::new();
    let w = WindowState::new(Layer::new(lrt(1, 2, 3, 4), ZOrder::new(9)));
    mem.win_set("ui", "win", w);
    assert_eq!(mem.win_get("ui", "win"), Some(w));
    assert_eq!(mem.win_get("ui", "other"), None);
    assert_eq!(mem.win_get("elsewhere", "win"), None);

    let z1 = mem.next_z("ui");
    let z2 = mem.next_z("ui");
    assert_eq!(z1.z, 1000);
    assert_eq!(z2.z, 2000);
    // Raising z leaves the stored window untouched.
    assert_eq!(mem.win_get("ui", "win"), Some(w));
}

#[test]
fn store_round_trip_reproduces_every_entry() {
    let mut mem = Memory::new();
    let a = WindowState {
        l: Layer::new(lrt(-5, 7, 120, 90), ZOrder::new(2000)),
        dir: ResizeDir::BottomRight,
        mouse_st: lpt(-3, 44),
        rt_st: lrt(0, 0, 120, 90),
    };
    let b = WindowState::new(Layer::new(lrt(10, 20, 30, 40), ZOrder::new(1000)));
    mem.win_set("##top", "##top##alpha", a);
    mem.win_set("##top", "##top##beta", b);
    mem.next_z("##top");
    mem.next_z("##top");
    mem.debug = true;

    let doc = save_store(&mem);
    let back = load_store(doc.as_str()).expect("the saved store reads back");
    assert_eq!(back.win_get("##top", "##top##alpha"), Some(a));
    assert_eq!(back.win_get("##top", "##top##beta"), Some(b));
    assert_eq!(back.debug, mem.debug);
    assert_eq!(back, mem);
}

#[test]
fn empty_store_round_trips() {
    let mem = Memory::new();
    let doc = save_store(&mem);
    assert_eq!(doc, "{\"wid\":{},\"debug\":false}");
    let back = load_store(doc.as_str()).expect("the empty store reads back");
    assert_eq!(back, mem);
}

#[test]
fn saved_store_is_valid_json() {
    let mut mem = Memory::new();
    mem.win_set("##top", "##top##w", WindowState::new(Layer::new(lrt(1, 2, 3, 4), ZOrder::new(5))));
    let doc = save_store(&mem);
    let v: serde_json::Value = serde_json::from_str(doc.as_str()).expect("well-formed JSON");
    assert_eq!(v["debug"], serde_json::Value::Bool(false));
    assert_eq!(v["wid"]["##top"]["pos"]["wins"]["##top##w"]["l"]["r"]["w"], 3);
}

#[test]
fn corrupt_store_is_refused() {
    assert!(load_store("").is_none());
    assert!(load_store("{\"wid\":{},\"debug\":false").is_none());
    assert!(load_store("{\"wid\":{},\"debug\":maybe}").is_none());
}

#[test]
fn duplicate_ids_are_refused() {
    // The reader is strict: a repeated key makes the document invalid.
    let mut mem = Memory::new();
    mem.win_set("a", "w", WindowState::new(Layer::new(lrt(0, 0, 1, 1), ZOrder::new(0))));
    let doc = save_store(&mem);
    let wid_part = &doc[8..doc.len() - 16];
    let twice = format!("{{\"wid\":{{{},{}}},\"debug\":false}}", wid_part, wid_part);
    assert!(load_store(&twice).is_none());
}

#[test]
fn frame_drive_places_fresh_window_and_persists_it() {
    let mem = Memory::new();
    let mut vis = Vis::new(gsz(1024, 768), mem);
    let mut ui = vis.begin();
    assert_eq!(ui.id(), "top");

    // A fresh window: offered its natural size at the cascade cursor,
    // one z gap up.
    let hint = Hint::new().opt_wh(memevis::hint::SzOpt::Exact).min(lsz(200, 100));
    let info = ui.child_info(&mut vis.io, &mut vis.mem, &mut vis.paint, &hint, "##top##w");
    assert_eq!(info.ptf.z.z, 1000);
    let l = ui.child_layer(&mut vis.io, &mut vis.mem, &mut vis.paint, &hint);
    assert_eq!((l.r.w, l.r.h), (200, 100));
    vis.end();

    // The placed layer went into the retained store.
    let stored = vis.mem.win_get("top", "");
    assert!(stored.is_some());
}

#[test]
fn window_drag_moves_by_cursor_delta() {
    let mem = Memory::new();
    let mut vis = Vis::new(gsz(1024, 768), mem);
    let w = WindowState::new(Layer::new(lrt(100, 100, 200, 150), ZOrder::new(1000)));
    vis.mem.win_set("top", "win", w);

    // One hover frame first: the window owns hover.
    vis.io.on_cursor_moved(gpt(200, 170));
    vis.io.mouse_req(GblZ::new(1000), "win");
    vis.io.begin();
    assert_eq!(vis.io.has_mouse.as_deref(), Some("win"));

    // Then a press in the middle of the window takes capture.
    vis.io.on_mouse_button(true);
    vis.io.mouse_capture(GblZ::new(1000), "win");
    vis.io.begin();
    assert_eq!(vis.io.mouse_captured.as_deref(), Some("win"));
    assert!(vis.io.mouse_just_captured);

    // Drag ten to the right, five down; capture begins this frame, so
    // the direction is chosen from the press point (the middle: Move)
    // and the whole rectangle translates by the cursor delta.
    vis.io.on_cursor_moved(gpt(210, 175));
    let rl = ResizeLayout::new(LayoutInfo::zero());
    let got = rl.interact(&mut vis.io, &mut vis.mem, &mut vis.paint, "top", "win", w);
    assert_eq!(got.dir, ResizeDir::Move);
    assert_eq!(got.l.r, lrt(110, 105, 200, 150));
    assert_eq!(got.l.z.z, 1000);
    assert_eq!(vis.paint.cursor, CursorIcon::Grabbing);
}

#[test]
fn resize_direction_sticks_to_the_grabbed_edge() {
    let mem = Memory::new();
    let mut vis = Vis::new(gsz(1024, 768), mem);
    let w = WindowState::new(Layer::new(lrt(100, 100, 200, 150), ZOrder::new(1000)));
    vis.mem.win_set("top", "win", w);

    // One hover frame, then a press inside the left hotspot band of
    // the hit-box.
    vis.io.on_cursor_moved(gpt(90, 170));
    vis.io.mouse_req(GblZ::new(1000), "win");
    vis.io.begin();
    vis.io.on_mouse_button(true);
    vis.io.mouse_capture(GblZ::new(1000), "win");
    vis.io.begin();
    assert!(vis.io.mouse_just_captured);

    // Pull the left edge eight units further left: origin moves and
    // the width grows by the same amount.
    vis.io.on_cursor_moved(gpt(82, 170));
    let rl = ResizeLayout::new(LayoutInfo::zero());
    let got = rl.interact(&mut vis.io, &mut vis.mem, &mut vis.paint, "top", "win", w);
    assert_eq!(got.dir, ResizeDir::Left);
    assert_eq!(got.l.r, lrt(92, 100, 208, 150));
    assert_eq!(vis.paint.cursor, CursorIcon::WResize);
}

#[test]
fn button_reports_click_on_release() {
    let mut io = Io::new(gsz(800, 600));
    let mut mem = Memory::new();
    let mut paint = memevis::painter::Painter::new();
    let button = memevis::widgets::Button::new("ok");

    // Frame one: the cursor is inside the button and the primary
    // button goes down; the widget files its hover and capture
    // interest.
    io.on_cursor_moved(gpt(10, 8));
    io.on_mouse_button(true);
    let mut ui = memevis::ui::Ui::new(
        memevis::ui::Layout::Vert(memevis::vert_layout::VertLayout::new(LayoutInfo::zero())),
        "top",
    );
    let r1 = button.ui(&mut ui, &mut io, &mut mem, &mut paint, lsz(40, 16));
    assert_eq!((r1.l.r.x, r1.l.r.y, r1.l.r.w, r1.l.r.h), (0, 0, 40, 16));
    assert!(!r1.clicked);

    // Frame two: arbitration makes the button the capture owner; the
    // button is released with the cursor still inside.
    io.begin();
    io.on_mouse_button(false);
    let mut ui = memevis::ui::Ui::new(
        memevis::ui::Layout::Vert(memevis::vert_layout::VertLayout::new(LayoutInfo::zero())),
        "top",
    );
    let r2 = button.ui(&mut ui, &mut io, &mut mem, &mut paint, lsz(40, 16));
    assert!(r2.clicked);
}
