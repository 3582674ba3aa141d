//! Metrics of a Fluent text run.
use vstd::prelude::*;

verus! {

/// Placeholder metrics for a Fluent text run.
#[derive(Clone, Copy, Debug)]
pub struct FluentTextRunStub {
    pub px_height: u16,
}

impl FluentTextRunStub {
    /// A run of the given pixel height.
    pub fn new(px_height: u16) -> (r: Self)
        ensures
            r.px_height == px_height,
    {
        FluentTextRunStub { px_height }
    }
}

} // verus!
