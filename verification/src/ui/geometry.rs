//! Window sizes for the full window and the floating bar.

use vstd::prelude::*;

verus! {

/// Width and height, in logical pixels, of the full window.
pub const FULL_SIZE: (u32, u32) = (560, 680);

/// Width and height of the floating bar, collapsed.
pub const FLOAT_BAR_SIZE: (u32, u32) = (380, 52);

/// Width and height of the floating bar, expanded.
pub const FLOAT_EXPANDED_SIZE: (u32, u32) = (380, 540);

/// The window size for a display mode: the full window unless floating, and
/// the floating bar expanded or collapsed otherwise.
pub open spec fn window_size_of(floating: bool, expanded: bool) -> (u32, u32) {
    if !floating {
        FULL_SIZE
    } else if expanded {
        FLOAT_EXPANDED_SIZE
    } else {
        FLOAT_BAR_SIZE
    }
}

/// The logical size the window takes in a display mode.
pub fn window_size(floating: bool, expanded: bool) -> (r: (u32, u32))
    ensures
        r == window_size_of(floating, expanded),
{
    if !floating {
        FULL_SIZE
    } else if expanded {
        FLOAT_EXPANDED_SIZE
    } else {
        FLOAT_BAR_SIZE
    }
}

} // verus!
