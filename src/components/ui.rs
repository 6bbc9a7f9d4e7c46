use vstd::prelude::*;

verus! {

/// The debug panel that shows frame rate, window size, draw calls and timings.
pub struct BasicDataUI {}

impl BasicDataUI {
    pub fn new() -> (u: Self)
        ensures
            u == (BasicDataUI {}),
    {
        BasicDataUI {}
    }
}

} // verus!
