use vstd::prelude::*;

verus! {

/// A navigation event handed to a session.
///
/// `I` is the raw interaction that caused the event (kept so that the reply
/// can be bound to it), `E` is an application error payload.
pub enum Event<I, E> {
    ToStart(I),
    Next(I),
    Previous(I),
    ToEnd(I),
    /// A jump to the zero-based page index.
    Jump(I, usize),
    CancelledByTimeout,
    CancelledByUser(I),
    Error(I, E),
}

/// What an event asks for, without its payloads.
#[derive(Debug, Clone, Copy, PartialEq, Eq, Structural)]
pub enum Nav {
    ToStart,
    Next,
    Previous,
    ToEnd,
    Jump(usize),
    CancelledByTimeout,
    CancelledByUser,
    Error,
}

impl Nav {
    /// Events that end a session.
    pub open spec fn is_terminal(self) -> bool {
        self == Nav::CancelledByTimeout || self == Nav::CancelledByUser
    }
}

impl<I, E> View for Event<I, E> {
    type V = Nav;

    open spec fn view(&self) -> Nav {
        match self {
            Event::ToStart(_) => Nav::ToStart,
            Event::Next(_) => Nav::Next,
            Event::Previous(_) => Nav::Previous,
            Event::ToEnd(_) => Nav::ToEnd,
            Event::Jump(_, p) => Nav::Jump(*p),
            Event::CancelledByTimeout => Nav::CancelledByTimeout,
            Event::CancelledByUser(_) => Nav::CancelledByUser,
            Event::Error(_, _) => Nav::Error,
        }
    }
}

} // verus!
