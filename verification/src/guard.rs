//! The terminal-mode lifecycle.
//!
//! The original terminal attributes are captured once at startup, raw mode
//! is installed for the duration of interactive input, and the original
//! attributes are restored exactly once on the way out — on a normal exit,
//! on the `exit` builtin, and on a fatal input error alike. The driver
//! holds the opaque attribute snapshot itself; this token tracks the
//! lifecycle, and consuming it on restoration makes a second restoration
//! unwritable.

use vstd::prelude::*;

verus! {

/// Where the terminal-mode resource stands.
#[derive(Clone, Copy, PartialEq, Eq, Structural, Debug)]
pub enum TermPhase {
    /// The original attributes are saved; the terminal is untouched.
    Saved,
    /// Raw mode is installed; the original attributes must be restored
    /// before the process exits.
    Raw,
}

/// A token for the saved terminal attributes.
pub struct ModeGuard {
    phase: TermPhase,
}

impl ModeGuard {
    /// The token's phase.
    pub closed spec fn phase(&self) -> TermPhase {
        self.phase
    }

    /// Taken when the original attributes have been read and saved.
    pub fn save() -> (r: Self)
        ensures
            r.phase() == TermPhase::Saved,
    {
        ModeGuard { phase: TermPhase::Saved }
    }

    /// Taken when raw mode is installed: only a saved, not yet raw,
    /// terminal may enter it.
    pub fn enter_raw(&mut self)
        requires
            old(self).phase() == TermPhase::Saved,
        ensures
            final(self).phase() == TermPhase::Raw,
    {
        self.phase = TermPhase::Raw;
    }

    /// Taken when the original attributes are reinstalled. The token is
    /// consumed: restoration happens at most once, on whichever exit path
    /// runs.
    pub fn restore(self)
        requires
            self.phase() == TermPhase::Raw,
    {
    }
}

} // verus!
