use vstd::prelude::*;

verus! {

/// Why a page is being rendered.
#[derive(Debug, Clone, Copy, PartialEq, Eq, Hash, Structural)]
pub enum CancellationType {
    /// The session ended because no interaction came within the timeout.
    Timeout,
    /// The session ended because the user pressed the cancel control.
    UserInput,
    /// The session is still running.
    NotCancelled,
}

impl CancellationType {
    /// Whether a render for this reason is the session's last one.
    pub fn is_terminal(&self) -> (r: bool)
        ensures
            r == (*self != CancellationType::NotCancelled),
    {
        !matches!(self, CancellationType::NotCancelled)
    }
}

} // verus!
