//! The handler as a mathematical value, and every transition as a function on that value.
//!
//! The executable handler is proved to follow these functions step by step.

use crate::clock::{duration_of_secs, instant_plus};
use crate::event::{
    CommandEffect, HandlerEventView, KeepAlive, Misuse, NotifsOutHandlerIn,
    NotifsOutHandlerOutView, SubstreamIo, SubstreamOutcome,
};
use crate::queue::max_queue_len;
use crate::state::State;
use std::time::Instant;
use vstd::prelude::*;

verus! {

/// Maximum duration, in seconds, to open a substream and receive the handshake message. After
/// that, the attempt is considered failed.
pub const OPEN_TIMEOUT_SECS: u64 = 10;

/// After a connection has been established it is kept open for at least this many seconds, to
/// give the controller the chance to enable the substream.
pub const INITIAL_KEEPALIVE_SECS: u64 = 5;

/// Everything that a handler consists of.
pub struct HandlerModel<TSubstream> {
    /// Name of the protocol to negotiate.
    pub protocol_name: Seq<u8>,
    /// Relationship with the remote.
    pub state: State<TSubstream>,
    /// When the connection with the remote was established.
    pub connection_opened_at: Instant,
    /// Events that wait for delivery, oldest first.
    pub pending_events: Seq<HandlerEventView>,
}

/// Anything that can happen to a handler.
pub enum Input<TSubstream> {
    /// The overlay controller sends a command.
    Command(NotifsOutHandlerIn),
    /// A negotiation has yielded a substream and the handshake of the remote.
    Negotiated { handshake: Seq<u8>, substream: TSubstream },
    /// A negotiation has failed.
    DialFailed,
    /// The driver polls, after the work that was due on the substream reported the outcome.
    Poll(SubstreamOutcome),
}

impl<TSubstream> HandlerModel<TSubstream> {
    /// The handler of a connection that was established at `connection_opened_at`.
    pub open spec fn new(protocol_name: Seq<u8>, connection_opened_at: Instant) -> Self {
        HandlerModel {
            protocol_name,
            state: State::Disabled,
            connection_opened_at,
            pending_events: Seq::empty(),
        }
    }

    /// Whether the handler is in one of the states in which it is found between two
    /// transitions. Every handler is made at rest and stays so.
    pub open spec fn at_rest(self) -> bool {
        !(self.state is Poisoned)
    }

    /// The request for a substream of the handler's protocol.
    pub open spec fn open_request(self) -> HandlerEventView {
        HandlerEventView::OutboundSubstreamRequest {
            protocol_name: self.protocol_name,
            timeout_secs: OPEN_TIMEOUT_SECS,
        }
    }

    /// The handler in another state.
    pub open spec fn with_state(self, state: State<TSubstream>) -> Self {
        HandlerModel { state, ..self }
    }

    /// The handler with one more event behind those that wait.
    pub open spec fn with_queued(self, event: HandlerEventView) -> Self {
        HandlerModel { pending_events: self.pending_events.push(event), ..self }
    }

    /// Whether the queue takes one more event.
    pub open spec fn has_room(self) -> bool {
        self.pending_events.len() <= max_queue_len()
    }

    /// The handler after `Enable`. Only a handler that was idle asks for a negotiation.
    pub open spec fn enable(self) -> Self {
        let next = self.with_state(self.state.enabled());
        if self.state is Disabled {
            next.with_queued(self.open_request())
        } else {
            next
        }
    }

    /// The handler after `Disable`.
    pub open spec fn disable(self) -> Self {
        self.with_state(self.state.disabled())
    }

    /// The handler after a command. `Send` changes nothing in the handler.
    pub open spec fn inject_event(self, message: NotifsOutHandlerIn) -> Self {
        match message {
            NotifsOutHandlerIn::Enable => self.enable(),
            NotifsOutHandlerIn::Disable => self.disable(),
            NotifsOutHandlerIn::Send(_) => self,
        }
    }

    /// What is left to the driver after a command.
    pub open spec fn command_effect(self, message: NotifsOutHandlerIn) -> CommandEffect {
        match message {
            NotifsOutHandlerIn::Enable => {
                if self.state is Poisoned {
                    CommandEffect::Ignored(Misuse::Poisoned)
                } else if self.state.is_enabled() {
                    CommandEffect::Ignored(Misuse::AlreadyEnabled)
                } else {
                    CommandEffect::Done
                }
            },
            NotifsOutHandlerIn::Disable => {
                if self.state is Poisoned {
                    CommandEffect::Ignored(Misuse::Poisoned)
                } else if self.state is Disabled || self.state is DisabledOpening {
                    CommandEffect::Ignored(Misuse::AlreadyDisabled)
                } else {
                    CommandEffect::Done
                }
            },
            NotifsOutHandlerIn::Send(payload) => {
                if self.state is Open {
                    CommandEffect::Enqueue(payload)
                } else {
                    CommandEffect::Done
                }
            },
        }
    }

    /// The handler after a negotiation has yielded `substream` and the remote's `handshake`.
    /// Only an enabled handler reports the substream as open.
    pub open spec fn negotiated(self, handshake: Seq<u8>, substream: TSubstream) -> Self {
        let next = self.with_state(self.state.negotiated(substream));
        if self.state is Opening {
            next.with_queued(
                HandlerEventView::Custom(NotifsOutHandlerOutView::Open { handshake }),
            )
        } else {
            next
        }
    }

    /// Whether a negotiated substream is misuse in this state, and which.
    pub open spec fn negotiated_misuse(self) -> Option<Misuse> {
        if self.state.is_negotiating() {
            None
        } else if self.state is Poisoned {
            Some(Misuse::Poisoned)
        } else {
            Some(Misuse::UnexpectedSubstream)
        }
    }

    /// The handler after a negotiation has failed. Only an enabled handler reports the refusal.
    pub open spec fn dial_failed(self) -> Self {
        let next = self.with_state(self.state.refused());
        if self.state is Opening {
            next.with_queued(HandlerEventView::Custom(NotifsOutHandlerOutView::Refused))
        } else {
            next
        }
    }

    /// Whether a failed negotiation is misuse in this state, and which.
    pub open spec fn dial_failed_misuse(self) -> Option<Misuse> {
        if self.state.is_negotiating() {
            None
        } else if self.state is Poisoned {
            Some(Misuse::Poisoned)
        } else {
            Some(Misuse::UnexpectedDialError)
        }
    }

    /// The work on the substream that is due. While events wait, none is.
    pub open spec fn liveness_work(self) -> Option<SubstreamIo> {
        if self.pending_events.len() > 0 {
            None
        } else if self.state is Open {
            Some(SubstreamIo::Flush)
        } else if self.state is DisabledOpen {
            Some(SubstreamIo::Close)
        } else {
            None
        }
    }

    /// Whether, with nothing waiting, `outcome` of the due work ends the life of the substream.
    pub open spec fn substream_ends(self, outcome: SubstreamOutcome) -> bool {
        ||| self.state is Open && outcome is Failed
        ||| self.state is DisabledOpen && !(outcome is InProgress)
    }

    /// The handler after a poll, where the work that was due on the substream reported
    /// `outcome`.
    ///
    /// A waiting event is taken from the head of the queue. With none waiting, an open
    /// substream whose flush failed is given up and a new one asked for, and a substream that
    /// has finished closing, cleanly or not, is dropped.
    pub open spec fn poll(self, outcome: SubstreamOutcome) -> Self {
        if self.pending_events.len() > 0 {
            HandlerModel { pending_events: self.pending_events.skip(1), ..self }
        } else if self.state is Open && outcome is Failed {
            self.with_state(State::Opening).with_queued(self.open_request())
        } else if self.state is DisabledOpen && !(outcome is InProgress) {
            self.with_state(State::Disabled)
        } else {
            self
        }
    }

    /// What a poll delivers: the oldest waiting event; with none waiting, `Closed` where the
    /// substream has ended; else nothing.
    pub open spec fn poll_event(self, outcome: SubstreamOutcome) -> Option<HandlerEventView> {
        if self.pending_events.len() > 0 {
            Some(self.pending_events[0])
        } else if self.substream_ends(outcome) {
            Some(HandlerEventView::Custom(NotifsOutHandlerOutView::Closed))
        } else {
            None
        }
    }

    /// Whether the keep-alive hint of this state is a deadline.
    pub open spec fn keep_alive_is_bounded(self) -> bool {
        self.state is Disabled || self.state is DisabledOpen || self.state is DisabledOpening
    }

    /// The end of the grace period after the connection was established, where the clock can
    /// represent it.
    pub open spec fn keep_alive_deadline(self) -> Option<Instant> {
        instant_plus(self.connection_opened_at, duration_of_secs(INITIAL_KEEPALIVE_SECS))
    }

    /// The keep-alive hint: as long as it takes while a substream is wanted, the grace period
    /// while the handler is disabled, nothing once the remote has refused.
    pub open spec fn keep_alive(self) -> KeepAlive {
        if self.state is Opening || self.state is Open {
            KeepAlive::Yes
        } else if self.keep_alive_is_bounded() {
            KeepAlive::Until(self.keep_alive_deadline().unwrap())
        } else {
            KeepAlive::No
        }
    }

    /// The handler after `input`.
    pub open spec fn step(self, input: Input<TSubstream>) -> Self {
        match input {
            Input::Command(message) => self.inject_event(message),
            Input::Negotiated { handshake, substream } => self.negotiated(handshake, substream),
            Input::DialFailed => self.dial_failed(),
            Input::Poll(outcome) => self.poll(outcome),
        }
    }

    /// The events that `input` brings about, in the order in which it does.
    pub open spec fn generated(self, input: Input<TSubstream>) -> Seq<HandlerEventView> {
        match input {
            Input::Command(NotifsOutHandlerIn::Enable) if self.state is Disabled => seq![
                self.open_request(),
            ],
            Input::Negotiated { handshake, .. } if self.state is Opening => seq![
                HandlerEventView::Custom(NotifsOutHandlerOutView::Open { handshake }),
            ],
            Input::DialFailed if self.state is Opening => seq![
                HandlerEventView::Custom(NotifsOutHandlerOutView::Refused),
            ],
            Input::Poll(outcome) if self.pending_events.len() == 0 && self.substream_ends(
                outcome,
            ) => {
                let closed = HandlerEventView::Custom(NotifsOutHandlerOutView::Closed);
                if self.state is Open {
                    seq![closed, self.open_request()]
                } else {
                    seq![closed]
                }
            },
            _ => Seq::empty(),
        }
    }

    /// The events that the handler hands out on `input`: one at most, and only when polled.
    pub open spec fn delivered(self, input: Input<TSubstream>) -> Seq<HandlerEventView> {
        match input {
            Input::Poll(outcome) => match self.poll_event(outcome) {
                Some(event) => seq![event],
                None => Seq::empty(),
            },
            _ => Seq::empty(),
        }
    }

    /// The handler after all of `inputs`, first to last.
    pub open spec fn run(self, inputs: Seq<Input<TSubstream>>) -> Self
        decreases inputs.len(),
    {
        if inputs.len() == 0 {
            self
        } else {
            self.run(inputs.drop_last()).step(inputs.last())
        }
    }

    /// The events that `inputs` bring about, in the order in which they do.
    pub open spec fn run_generated(self, inputs: Seq<Input<TSubstream>>) -> Seq<HandlerEventView>
        decreases inputs.len(),
    {
        if inputs.len() == 0 {
            Seq::empty()
        } else {
            self.run_generated(inputs.drop_last()) + self.run(inputs.drop_last()).generated(
                inputs.last(),
            )
        }
    }

    /// The events that the handler hands out during `inputs`, in the order in which it does.
    pub open spec fn run_delivered(self, inputs: Seq<Input<TSubstream>>) -> Seq<HandlerEventView>
        decreases inputs.len(),
    {
        if inputs.len() == 0 {
            Seq::empty()
        } else {
            self.run_delivered(inputs.drop_last()) + self.run(inputs.drop_last()).delivered(
                inputs.last(),
            )
        }
    }
}

} // verus!
