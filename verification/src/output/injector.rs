//! Settings of the focused-window text injector.

use vstd::prelude::*;

verus! {

/// Types or pastes text into the focused window after a short delay.
pub struct FocusedWindowInjector {
    pub inject_delay_ms: u64,
}

impl FocusedWindowInjector {
    /// An injector that waits 50 ms before typing.
    pub fn new() -> (r: Self)
        ensures
            r.inject_delay_ms == 50,
    {
        FocusedWindowInjector { inject_delay_ms: 50 }
    }

    /// An injector that waits `delay_ms` before pasting.
    pub fn with_delay(delay_ms: u64) -> (r: Self)
        ensures
            r.inject_delay_ms == delay_ms,
    {
        FocusedWindowInjector { inject_delay_ms: delay_ms }
    }

    /// Changes the wait before pasting.
    pub fn set_delay(&mut self, delay_ms: u64)
        ensures
            final(self).inject_delay_ms == delay_ms,
    {
        self.inject_delay_ms = delay_ms;
    }
}

impl Default for FocusedWindowInjector {
    fn default() -> (r: Self)
        ensures
            r.inject_delay_ms == 50,
    {
        Self::new()
    }
}

} // verus!
