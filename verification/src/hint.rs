//! Size-negotiation requests.
//!
//! A `Hint` describes a widget's size preference for one layout pass: a
//! sizing option and a gravity per axis, plus optional minimum, maximum
//! and requested sizes, all in the widget's own local space.

use vstd::prelude::*;

use crate::types::LclSz;

verus! {

/// How a widget wants an axis sized: wrap its content, fill the parent,
/// or take exactly what it requested.
#[derive(Clone, Copy, Debug, PartialEq, Eq, Hash)]
pub enum SzOpt {
    Wrap,
    Fill,
    Exact,
}

/// Where a widget gravitates inside slack space on an axis.
#[derive(Clone, Copy, Debug, PartialEq, Eq, Hash)]
pub enum Grav {
    Begin,
    Center,
    End,
}

/// The hint `make_exact` builds: exactly `sz` on both axes.
pub open spec fn make_exact_spec(sz: LclSz) -> Hint {
    Hint {
        opt: (SzOpt::Exact, SzOpt::Exact),
        grav: (Grav::Begin, Grav::Begin),
        min: None,
        max: None,
        req: Some(sz),
    }
}

/// The neutral hint `Hint::new` builds.
pub open spec fn neutral_hint() -> Hint {
    Hint {
        opt: (SzOpt::Wrap, SzOpt::Wrap),
        grav: (Grav::Begin, Grav::Begin),
        min: None,
        max: None,
        req: None,
    }
}

/// A widget's declared size preference for one layout pass.
#[derive(Clone, Copy, Debug, PartialEq)]
pub struct Hint {
    pub opt: (SzOpt, SzOpt),
    pub grav: (Grav, Grav),
    pub min: Option<LclSz>,
    pub max: Option<LclSz>,
    pub req: Option<LclSz>,
}

impl Hint {
    /// The neutral hint: wrap on both axes, begin gravity, no bounds.
    pub fn new() -> (h: Self)
        ensures
            h == neutral_hint(),
    {
        Self {
            opt: (SzOpt::Wrap, SzOpt::Wrap),
            grav: (Grav::Begin, Grav::Begin),
            min: None,
            max: None,
            req: None,
        }
    }

    pub fn min(self, sz: LclSz) -> (h: Self)
        ensures
            h == (Self { min: Some(sz), ..self }),
    {
        Self { min: Some(sz), ..self }
    }

    pub fn max(self, sz: LclSz) -> (h: Self)
        ensures
            h == (Self { max: Some(sz), ..self }),
    {
        Self { max: Some(sz), ..self }
    }

    pub fn req(self, sz: LclSz) -> (h: Self)
        ensures
            h == (Self { req: Some(sz), ..self }),
    {
        Self { req: Some(sz), ..self }
    }

    /// A hint that asks for exactly `sz` on both axes.
    pub fn make_exact(sz: LclSz) -> (h: Self)
        ensures
            h == make_exact_spec(sz),
    {
        Self { opt: (SzOpt::Exact, SzOpt::Exact), req: Some(sz), ..Self::new() }
    }

    pub fn opt(self, opt: (SzOpt, SzOpt)) -> (h: Self)
        ensures
            h == (Self { opt, ..self }),
    {
        Self { opt, ..self }
    }

    /// Use the same sizing option on both axes.
    pub fn opt_wh(self, opt: SzOpt) -> (h: Self)
        ensures
            h == (Self { opt: (opt, opt), ..self }),
    {
        Self { opt: (opt, opt), ..self }
    }
}

impl Default for Hint {
    fn default() -> (h: Self)
        ensures
            h.opt.0 == SzOpt::Wrap,
            h.opt.1 == SzOpt::Wrap,
            h.grav.0 == Grav::Begin,
            h.grav.1 == Grav::Begin,
            h.min is None,
            h.max is None,
            h.req is None,
    {
        Self::new()
    }
}

} // verus!
