//! The messages that go into and come out of a handler.

use std::time::Instant;
use vstd::prelude::*;

verus! {

/// Command that the overlay controller sends to a `NotifsOutHandler`.
#[derive(Debug, PartialEq, Eq)]
pub enum NotifsOutHandlerIn {
    /// Enables the notifications substream for this node. The handler will try to maintain a
    /// substream with the remote.
    Enable,
    /// Disables the notifications substream for this node. This is the default state.
    Disable,
    /// Sends a message on the notifications substream. Ignored if the substream isn't open.
    Send(Vec<u8>),
}

/// Event that a `NotifsOutHandler` emits for the overlay controller.
#[derive(Debug, PartialEq, Eq)]
pub enum NotifsOutHandlerOut {
    /// The notifications substream has been accepted by the remote.
    Open {
        /// Handshake message sent by the remote after we opened the substream.
        handshake: Vec<u8>,
    },
    /// The notifications substream has been closed by the remote.
    Closed,
    /// We tried to open a notifications substream, but the remote refused it.
    Refused,
}

/// Mathematical value of a [`NotifsOutHandlerOut`].
pub enum NotifsOutHandlerOutView {
    Open { handshake: Seq<u8> },
    Closed,
    Refused,
}

impl View for NotifsOutHandlerOut {
    type V = NotifsOutHandlerOutView;

    open spec fn view(&self) -> NotifsOutHandlerOutView {
        match *self {
            NotifsOutHandlerOut::Open { handshake } => NotifsOutHandlerOutView::Open {
                handshake: handshake@,
            },
            NotifsOutHandlerOut::Closed => NotifsOutHandlerOutView::Closed,
            NotifsOutHandlerOut::Refused => NotifsOutHandlerOutView::Refused,
        }
    }
}

/// What a handler hands to its driver when polled: either a request to negotiate a new outbound
/// substream, or an event for the overlay controller.
#[derive(Debug, PartialEq, Eq)]
pub enum HandlerEvent {
    /// Asks the negotiation layer for a new outbound substream.
    OutboundSubstreamRequest {
        /// Name of the protocol to negotiate.
        protocol_name: Vec<u8>,
        /// Seconds after which the attempt counts as failed.
        timeout_secs: u64,
    },
    /// Event for the overlay controller.
    Custom(NotifsOutHandlerOut),
}

/// Mathematical value of a [`HandlerEvent`].
pub enum HandlerEventView {
    OutboundSubstreamRequest { protocol_name: Seq<u8>, timeout_secs: u64 },
    Custom(NotifsOutHandlerOutView),
}

impl View for HandlerEvent {
    type V = HandlerEventView;

    open spec fn view(&self) -> HandlerEventView {
        match *self {
            HandlerEvent::OutboundSubstreamRequest { protocol_name, timeout_secs } => {
                HandlerEventView::OutboundSubstreamRequest {
                    protocol_name: protocol_name@,
                    timeout_secs,
                }
            },
            HandlerEvent::Custom(event) => HandlerEventView::Custom(event@),
        }
    }
}

/// An input that the handler tolerates although its state does not allow it. The handler is
/// left as it was; the driver may log the condition.
#[derive(Debug, Clone, Copy, PartialEq, Eq, Structural)]
pub enum Misuse {
    /// `Enable` while the handler was enabled.
    AlreadyEnabled,
    /// `Disable` while the handler was disabled with no substream left to close.
    AlreadyDisabled,
    /// A negotiated substream arrived while no negotiation was in flight.
    UnexpectedSubstream,
    /// A negotiation failure arrived while no negotiation was in flight.
    UnexpectedDialError,
    /// The handler was found in the transient state of a transition.
    Poisoned,
}

/// What the driver has to do once a command has been injected.
#[derive(Debug, PartialEq, Eq)]
pub enum CommandEffect {
    /// Nothing.
    Done,
    /// Hand the payload to the outbound buffer of the open substream.
    Enqueue(Vec<u8>),
    /// The command was misuse and changed nothing.
    Ignored(Misuse),
}

/// Why the negotiation of an outbound substream failed. The handler treats all reasons alike.
#[derive(Debug, Clone, Copy, PartialEq, Eq, Structural)]
pub enum DialUpgradeError {
    /// The attempt took longer than its timeout.
    Timeout,
    /// The remote supports none of the requested protocols.
    NegotiationFailed,
    /// The protocol was agreed on but its handshake failed.
    Apply,
    /// The connection failed underneath the attempt.
    Io,
}

/// Work on the substream that is due when no event is waiting for delivery.
#[derive(Debug, Clone, Copy, PartialEq, Eq, Structural)]
pub enum SubstreamIo {
    /// Flush the buffered outbound data of the open substream.
    Flush,
    /// Go on closing the substream of a disabled handler.
    Close,
}

/// What a flush or a close of the substream reported.
#[derive(Debug, Clone, Copy, PartialEq, Eq, Structural)]
pub enum SubstreamOutcome {
    /// The operation has not completed yet.
    InProgress,
    /// The operation completed.
    Done,
    /// The operation failed: the substream is no longer usable.
    Failed,
}

/// How long a handler wants its connection to be kept alive.
#[derive(Debug, Clone, Copy, PartialEq, Eq)]
pub enum KeepAlive {
    /// Keep the connection alive until the given instant.
    Until(Instant),
    /// Keep the connection alive, with no end in sight.
    Yes,
    /// The handler has no use for the connection.
    No,
}

} // verus!
