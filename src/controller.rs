use vstd::prelude::*;

use crate::cancellation_type::CancellationType;
use crate::event::{Event, Nav};

verus! {

/// Where a session stands. The two cancelled states are final.
#[derive(Debug, Clone, Copy, PartialEq, Eq, Structural)]
pub enum SessionState {
    Active,
    CancelledByTimeout,
    CancelledByUser,
}

/// The abstract value of a session.
#[derive(Debug, Clone, Copy, PartialEq, Eq, Structural)]
pub struct SessionModel {
    pub index: usize,
    pub length: usize,
    pub state: SessionState,
}

impl SessionModel {
    /// A session has at least one page and its index names one of them.
    pub open spec fn wf(self) -> bool {
        0 < self.length && self.index < self.length
    }

    pub open spec fn is_active(self) -> bool {
        self.state == SessionState::Active
    }

    /// The model after one event.
    ///
    /// `Next` is clamped at the last page, so that the index stays in range
    /// even when a press of a disabled control arrives.
    pub open spec fn step(self, e: Nav) -> SessionModel {
        if !self.is_active() {
            self
        } else {
            match e {
                Nav::ToStart => SessionModel { index: 0, ..self },
                Nav::Previous => SessionModel {
                    index: if self.index > 0 { (self.index - 1) as usize } else { 0 },
                    ..self
                },
                Nav::Next => SessionModel {
                    index: if self.index + 1 < self.length { (self.index + 1) as usize } else { self.index },
                    ..self
                },
                Nav::ToEnd => SessionModel { index: (self.length - 1) as usize, ..self },
                Nav::Jump(p) => SessionModel {
                    index: if p < self.length { p } else { self.index },
                    ..self
                },
                Nav::CancelledByTimeout => SessionModel { state: SessionState::CancelledByTimeout, ..self },
                Nav::CancelledByUser => SessionModel { state: SessionState::CancelledByUser, ..self },
                Nav::Error => self,
            }
        }
    }

    /// The model after a sequence of events, handled in order.
    pub open spec fn run(self, events: Seq<Nav>) -> SessionModel
        decreases events.len(),
    {
        if events.len() == 0 {
            self
        } else {
            self.step(events[0]).run(events.drop_first())
        }
    }

    /// How many of `events` end the session, counting only those handled
    /// while it is still active.
    pub open spec fn finishes(self, events: Seq<Nav>) -> nat
        decreases events.len(),
    {
        if events.len() == 0 {
            0
        } else {
            (if self.is_active() && events[0].is_terminal() { 1nat } else { 0nat })
                + self.step(events[0]).finishes(events.drop_first())
        }
    }

    /// The render of the current page for the given reason.
    pub open spec fn frame(self, reason: CancellationType) -> Frame {
        Frame {
            index: self.index,
            length: self.length,
            reason,
            disable_all: reason != CancellationType::NotCancelled,
        }
    }

    /// What a session in this model answers to `event`.
    pub open spec fn action<I, E>(self, event: Event<I, E>) -> Action<I, E> {
        let next = self.step(event@);
        if !self.is_active() {
            Action::Ignore
        } else {
            match event {
                Event::ToStart(i) => Action::Render(Reply::Interaction(i), next.frame(CancellationType::NotCancelled)),
                Event::Next(i) => Action::Render(Reply::Interaction(i), next.frame(CancellationType::NotCancelled)),
                Event::Previous(i) => Action::Render(Reply::Interaction(i), next.frame(CancellationType::NotCancelled)),
                Event::ToEnd(i) => Action::Render(Reply::Interaction(i), next.frame(CancellationType::NotCancelled)),
                Event::Jump(i, p) => if p < self.length {
                    Action::Render(Reply::EditMessage, next.frame(CancellationType::NotCancelled))
                } else {
                    Action::Notify(i, Notice::MissingPage(p))
                },
                Event::CancelledByTimeout => Action::Finish(Reply::EditMessage, next.frame(CancellationType::Timeout)),
                Event::CancelledByUser(i) => Action::Finish(Reply::Interaction(i), next.frame(CancellationType::UserInput)),
                Event::Error(i, e) => Action::Notify(i, Notice::Failure(e)),
            }
        }
    }
}

/// One render pass: the page to generate, why, and how the controls look.
#[derive(Debug, Clone, Copy, PartialEq, Eq, Structural)]
pub struct Frame {
    /// Zero-based page index.
    pub index: usize,
    /// Total number of pages.
    pub length: usize,
    pub reason: CancellationType,
    /// Every control is rendered disabled.
    pub disable_all: bool,
}

/// How a render reaches the message.
pub enum Reply<I> {
    /// As the response to this interaction.
    Interaction(I),
    /// By editing the message directly; the interaction was already answered.
    EditMessage,
}

/// A private notice to the user, sent as a follow-up to an interaction.
pub enum Notice<E> {
    /// A jump to this zero-based index, which names no page.
    MissingPage(usize),
    Failure(E),
}

/// What the caller must do after a session handled an event.
pub enum Action<I, E> {
    /// Generate the frame's page, render its controls and push the update.
    Render(Reply<I>, Frame),
    /// As `Render`, and then the session is over.
    Finish(Reply<I>, Frame),
    /// Send the notice; the page does not change.
    Notify(I, Notice<E>),
    /// The session is over; nothing to do.
    Ignore,
}

/// Reasons a session cannot be created.
#[derive(Debug, Clone, Copy, PartialEq, Eq, Structural)]
pub enum ConfigError {
    /// There are no pages to show.
    NoPages,
}

/// The state of one page viewer: the current page, the number of pages, and
/// whether it is still running.
pub struct Session {
    current_idx: usize,
    length: usize,
    state: SessionState,
}

impl View for Session {
    type V = SessionModel;

    closed spec fn view(&self) -> SessionModel {
        SessionModel { index: self.current_idx, length: self.length, state: self.state }
    }
}

impl Session {
    pub open spec fn wf(&self) -> bool {
        self@.wf()
    }

    /// A session on the first of `length` pages.
    pub fn new(length: usize) -> (r: Result<Session, ConfigError>)
        ensures
            length > 0 <==> r is Ok,
            r matches Err(e) ==> e == ConfigError::NoPages,
            r matches Ok(s) ==> s.wf() && s@ == (SessionModel {
                index: 0,
                length,
                state: SessionState::Active,
            }),
    {
        if length == 0 {
            Err(ConfigError::NoPages)
        } else {
            Ok(Session { current_idx: 0, length, state: SessionState::Active })
        }
    }

    pub fn current_idx(&self) -> (r: usize)
        ensures
            r == self@.index,
    {
        self.current_idx
    }

    pub fn length(&self) -> (r: usize)
        ensures
            r == self@.length,
    {
        self.length
    }

    pub fn state(&self) -> (r: SessionState)
        ensures
            r == self@.state,
    {
        self.state
    }

    pub fn is_active(&self) -> (r: bool)
        ensures
            r == self@.is_active(),
    {
        matches!(self.state, SessionState::Active)
    }

    /// The render of the current page while the session runs; the first
    /// render of a session is this frame.
    pub fn current_frame(&self) -> (r: Frame)
        ensures
            r == self@.frame(CancellationType::NotCancelled),
    {
        Frame {
            index: self.current_idx,
            length: self.length,
            reason: CancellationType::NotCancelled,
            disable_all: false,
        }
    }

    /// Applies one event and says what to render or send for it.
    pub fn handle<I, E>(&mut self, event: Event<I, E>) -> (r: Action<I, E>)
        requires
            old(self).wf(),
        ensures
            final(self).wf(),
            final(self)@ == old(self)@.step(event@),
            r == old(self)@.action(event),
    {
        if !self.is_active() {
            return Action::Ignore;
        }
        match event {
            Event::ToStart(i) => {
                self.current_idx = 0;
                Action::Render(Reply::Interaction(i), self.current_frame())
            },
            Event::Previous(i) => {
                if self.current_idx > 0 {
                    self.current_idx = self.current_idx - 1;
                }
                Action::Render(Reply::Interaction(i), self.current_frame())
            },
            Event::Next(i) => {
                if self.current_idx < self.length - 1 {
                    self.current_idx = self.current_idx + 1;
                }
                Action::Render(Reply::Interaction(i), self.current_frame())
            },
            Event::ToEnd(i) => {
                self.current_idx = self.length - 1;
                Action::Render(Reply::Interaction(i), self.current_frame())
            },
            Event::Jump(i, p) => {
                if p < self.length {
                    self.current_idx = p;
                    Action::Render(Reply::EditMessage, self.current_frame())
                } else {
                    Action::Notify(i, Notice::MissingPage(p))
                }
            },
            Event::CancelledByTimeout => {
                self.state = SessionState::CancelledByTimeout;
                Action::Finish(Reply::EditMessage, Frame {
                    index: self.current_idx,
                    length: self.length,
                    reason: CancellationType::Timeout,
                    disable_all: true,
                })
            },
            Event::CancelledByUser(i) => {
                self.state = SessionState::CancelledByUser;
                Action::Finish(Reply::Interaction(i), Frame {
                    index: self.current_idx,
                    length: self.length,
                    reason: CancellationType::UserInput,
                    disable_all: true,
                })
            },
            Event::Error(i, e) => Action::Notify(i, Notice::Failure(e)),
        }
    }
}

/// Every well-formed session stays well-formed whatever events it handles:
/// the index names a page at every render.
pub proof fn lemma_index_in_bounds(m: SessionModel, events: Seq<Nav>)
    requires
        m.wf(),
    ensures
        m.run(events).wf(),
    decreases events.len(),
{
    if events.len() > 0 {
        lemma_index_in_bounds(m.step(events[0]), events.drop_first());
    }
}

/// `ToStart` goes to the first page and `ToEnd` to the last, from any page.
pub proof fn lemma_to_start_to_end(m: SessionModel)
    requires
        m.wf(),
        m.is_active(),
    ensures
        m.step(Nav::ToStart).index == 0,
        m.step(Nav::ToEnd).index == m.length - 1,
{
}

/// `Previous` on the first page leaves the index where it is.
pub proof fn lemma_previous_at_start(m: SessionModel)
    requires
        m.wf(),
        m.index == 0,
    ensures
        m.step(Nav::Previous) == m,
{
}

/// A jump to an existing page goes exactly there and renders it. A jump to a
/// page that does not exist keeps the index, answers with exactly one notice
/// naming the requested page, and the session stays active.
pub proof fn lemma_jump<I, E>(m: SessionModel, i: I, p: usize)
    requires
        m.wf(),
        m.is_active(),
    ensures
        p < m.length ==> m.step(Nav::Jump(p)).index == p,
        p < m.length ==> m.action(Event::<I, E>::Jump(i, p)) == Action::<I, E>::Render(
            Reply::EditMessage,
            m.step(Nav::Jump(p)).frame(CancellationType::NotCancelled),
        ),
        p >= m.length ==> m.step(Nav::Jump(p)) == m,
        p >= m.length ==> m.action(Event::<I, E>::Jump(i, p)) == Action::<I, E>::Notify(
            i,
            Notice::MissingPage(p),
        ),
{
}

/// Once a session has ended, no event changes it again.
pub proof fn lemma_ended_is_final(m: SessionModel, events: Seq<Nav>)
    requires
        !m.is_active(),
    ensures
        m.run(events) == m,
        m.finishes(events) == 0,
    decreases events.len(),
{
    if events.len() > 0 {
        lemma_ended_is_final(m.step(events[0]), events.drop_first());
    }
}

/// Over any sequence of events a session ends at most once, and it has ended
/// exactly when one ending event was handled.
pub proof fn lemma_single_finish(m: SessionModel, events: Seq<Nav>)
    requires
        m.is_active(),
    ensures
        m.finishes(events) <= 1,
        m.finishes(events) == 1 <==> !m.run(events).is_active(),
    decreases events.len(),
{
    if events.len() > 0 {
        let next = m.step(events[0]);
        if next.is_active() {
            lemma_single_finish(next, events.drop_first());
        } else {
            lemma_ended_is_final(next, events.drop_first());
        }
    }
}

/// While a session runs, each navigation event gives exactly one render, of
/// the page that the event leads to, with the controls enabled.
pub proof fn lemma_navigation_renders_once<I, E>(m: SessionModel, e: Event<I, E>)
    requires
        m.wf(),
        m.is_active(),
        !e@.is_terminal(),
        e@ != Nav::Error,
        !(e@ matches Nav::Jump(p) && p >= m.length),
    ensures
        m.action(e) matches Action::Render(_, f) && f == m.step(e@).frame(CancellationType::NotCancelled)
            && f.index < f.length && !f.disable_all,
        m.step(e@).is_active(),
{
}

} // verus!
