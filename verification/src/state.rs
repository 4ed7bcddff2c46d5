//! The relationship of a handler with the remote, and how it changes.

use vstd::prelude::*;

verus! {

/// Our relationship with the node we're connected to.
///
/// A state that says that a substream is open holds that substream: there is no other place
/// where one is kept.
pub enum State<TSubstream> {
    /// The handler is disabled and idle. No substream is open.
    Disabled,
    /// The handler is disabled. A substream is still open and needs to be closed.
    DisabledOpen(TSubstream),
    /// The handler is disabled but we are still trying to open a substream with the remote.
    ///
    /// If the handler gets enabled again, we can immediately switch to `Opening`.
    DisabledOpening,
    /// The handler is enabled and we are trying to open a substream with the remote.
    Opening,
    /// The handler is enabled. We have tried opening a substream in the past but the remote
    /// refused it.
    Refused,
    /// The handler is enabled and substream is open.
    Open(TSubstream),
    /// Stands in for the state while a transition computes the next one. Not found at rest.
    Poisoned,
}

/// Which of its states a handler is in, without the substream that the state may hold.
#[derive(Debug, Clone, Copy, PartialEq, Eq, Structural)]
pub enum StateKind {
    Disabled,
    DisabledOpen,
    DisabledOpening,
    Opening,
    Refused,
    Open,
    Poisoned,
}

impl<TSubstream> State<TSubstream> {
    /// The state without its substream.
    pub open spec fn kind(self) -> StateKind {
        match self {
            State::Disabled => StateKind::Disabled,
            State::DisabledOpen(_) => StateKind::DisabledOpen,
            State::DisabledOpening => StateKind::DisabledOpening,
            State::Opening => StateKind::Opening,
            State::Refused => StateKind::Refused,
            State::Open(_) => StateKind::Open,
            State::Poisoned => StateKind::Poisoned,
        }
    }

    /// The substream that the state holds.
    pub open spec fn substream(self) -> Option<TSubstream> {
        match self {
            State::DisabledOpen(substream) | State::Open(substream) => Some(substream),
            _ => None,
        }
    }

    /// Whether the controller's last word was to maintain a substream.
    pub open spec fn is_enabled(self) -> bool {
        self is Opening || self is Refused || self is Open
    }

    /// Whether a substream is open.
    pub open spec fn is_open(self) -> bool {
        self is DisabledOpen || self is Open
    }

    /// Whether a negotiation has been requested whose outcome is still to come.
    pub open spec fn is_negotiating(self) -> bool {
        self is Opening || self is DisabledOpening
    }

    /// The state after an `Enable`. An enabled handler stays as it is.
    pub open spec fn enabled(self) -> Self {
        match self {
            State::Disabled | State::DisabledOpening => State::Opening,
            State::DisabledOpen(substream) => State::Open(substream),
            _ => self,
        }
    }

    /// The state after a `Disable`. A disabled handler stays as it is.
    pub open spec fn disabled(self) -> Self {
        match self {
            State::Opening => State::DisabledOpening,
            State::Refused => State::Disabled,
            State::Open(substream) => State::DisabledOpen(substream),
            _ => self,
        }
    }

    /// The state after a negotiation has yielded `substream`. Where none was in flight the
    /// state stays as it is, and `substream` is not kept.
    pub open spec fn negotiated(self, substream: TSubstream) -> Self {
        match self {
            State::Opening => State::Open(substream),
            State::DisabledOpening => State::DisabledOpen(substream),
            _ => self,
        }
    }

    /// The state after a negotiation has failed. Where none was in flight the state stays as it is.
    pub open spec fn refused(self) -> Self {
        match self {
            State::Opening => State::Refused,
            State::DisabledOpening => State::Disabled,
            _ => self,
        }
    }
}

} // verus!
