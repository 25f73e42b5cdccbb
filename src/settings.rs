//! Flags that the user toggles while the program runs.

use vstd::prelude::*;

verus! {

/// Number of function keys that toggle a flag: F1 toggles bit 0, F12 bit 11.
pub const FUNCTION_KEYS: u32 = 12;

/// Feature flags handed to every pass of a frame as push constants.
#[derive(Clone, Copy, Debug, PartialEq, Eq, Structural)]
pub struct RuntimeSettings {
    pub f: u32,
}

impl RuntimeSettings {
    /// All flags cleared.
    pub fn new() -> (r: Self)
        ensures
            r.f == 0,
    {
        RuntimeSettings { f: 0 }
    }

    /// Flips the flag of function key `key` (1 for F1); other keys change nothing.
    pub fn toggle_function_key(&mut self, key: u32)
        ensures
            1 <= key <= FUNCTION_KEYS ==> final(self).f == old(self).f ^ (1u32 << ((key - 1) as u32)),
            !(1 <= key <= FUNCTION_KEYS) ==> *final(self) == *old(self),
    {
        if 1 <= key && key <= FUNCTION_KEYS {
            self.f = self.f ^ (1u32 << (key - 1));
        }
    }

    /// Whether flag `bit` is set.
    pub fn is_set(&self, bit: u32) -> (r: bool)
        requires
            bit < 32,
        ensures
            r == (self.f & (1u32 << bit) != 0),
    {
        self.f & (1u32 << bit) != 0
    }
}

} // verus!
