//! The line styles that a page's stroke operators take.
use vstd::prelude::*;

verus! {

/// The shape at the ends of stroked open paths.
#[derive(Debug, Clone, Copy, PartialEq, Eq, Structural)]
pub enum LineCap {
    ButtEnd,
    RoundEnd,
    ProjectingSquareEnd,
}

/// The shape at the corners of stroked paths.
#[derive(Debug, Clone, Copy, PartialEq, Eq, Structural)]
pub enum LineJoin {
    Miter,
    Round,
    Bevel,
}

/// The engine's code for a line cap.
pub open spec fn line_cap_code(cap: LineCap) -> u32 {
    match cap {
        LineCap::ButtEnd => 0,
        LineCap::RoundEnd => 1,
        LineCap::ProjectingSquareEnd => 2,
    }
}

/// The engine's code for a line join.
pub open spec fn line_join_code(join: LineJoin) -> u32 {
    match join {
        LineJoin::Miter => 0,
        LineJoin::Round => 1,
        LineJoin::Bevel => 2,
    }
}

impl LineCap {
    /// The engine's code for this line cap.
    pub fn as_int(&self) -> (code: u32)
        ensures
            code == line_cap_code(*self),
    {
        match *self {
            LineCap::ButtEnd => 0,
            LineCap::RoundEnd => 1,
            LineCap::ProjectingSquareEnd => 2,
        }
    }
}

impl LineJoin {
    /// The engine's code for this line join.
    pub fn as_int(&self) -> (code: u32)
        ensures
            code == line_join_code(*self),
    {
        match *self {
            LineJoin::Miter => 0,
            LineJoin::Round => 1,
            LineJoin::Bevel => 2,
        }
    }
}

} // verus!
