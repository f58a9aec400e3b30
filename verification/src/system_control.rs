use vstd::prelude::*;

verus! {

/// The pause switch that the window toggles and the emulation honours
/// between frames.
pub struct SystemControl {
    pub is_paused: bool,
}

impl SystemControl {
    pub fn new() -> (r: Self)
        ensures
            !r.is_paused,
    {
        Self { is_paused: false }
    }

    /// Whether the emulation must wait before going on.
    pub fn wait_on_pause(&self) -> (r: bool)
        ensures
            r == self.is_paused,
    {
        self.is_paused
    }

    /// Flips the switch; returns whether waiters are to be woken, which is
    /// when the emulation resumes.
    pub fn toggle_pause(&mut self) -> (notify: bool)
        ensures
            final(self).is_paused == !old(self).is_paused,
            notify == !final(self).is_paused,
    {
        self.is_paused = !self.is_paused;
        !self.is_paused
    }
}

} // verus!
