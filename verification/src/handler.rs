//! The handler of one connection, and the value it is made from.

use crate::clock::{duration_from_secs, instant_checked_add, instant_now};
use crate::event::{
    CommandEffect, DialUpgradeError, HandlerEvent, HandlerEventView, KeepAlive, Misuse,
    NotifsOutHandlerIn, NotifsOutHandlerOut, SubstreamIo, SubstreamOutcome,
};
use crate::model::{HandlerModel, INITIAL_KEEPALIVE_SECS, OPEN_TIMEOUT_SECS};
use crate::queue::{
    queue_is_empty, queue_len, queue_new, queue_push, queue_remove_first, queued, EventQueue,
};
use crate::state::{State, StateKind};
use std::marker::PhantomData;
use std::time::Instant;
use vstd::prelude::*;

verus! {

/// What a handler is made from once its connection is established.
///
/// Every time a connection with a remote starts, a value of this type is created for it. Once
/// the connection is established, it is turned into a [`NotifsOutHandler`].
pub struct NotifsOutHandlerProto<TSubstream> {
    /// Name of the protocol to negotiate.
    proto_name: Vec<u8>,
    /// Marker to pin the generic type.
    marker: PhantomData<TSubstream>,
}

impl<TSubstream> View for NotifsOutHandlerProto<TSubstream> {
    type V = Seq<u8>;

    /// The name of the protocol to negotiate.
    closed spec fn view(&self) -> Seq<u8> {
        self.proto_name@
    }
}

impl<TSubstream> NotifsOutHandlerProto<TSubstream> {
    /// Builds a new [`NotifsOutHandlerProto`]. Will use the given protocol name for the
    /// notifications substream.
    pub fn new(proto_name: Vec<u8>) -> (proto: Self)
        ensures
            proto@ == proto_name@,
    {
        NotifsOutHandlerProto { proto_name, marker: PhantomData }
    }

    /// Turns `self` into the handler of a connection that is established now. Who the remote is
    /// and how it was reached makes no difference.
    pub fn into_handler(
        self,
        _remote_peer_id: &libp2p::PeerId,
        _connected_point: &libp2p::core::ConnectedPoint,
    ) -> (handler: NotifsOutHandler<TSubstream>)
        ensures
            handler@ == HandlerModel::<TSubstream>::new(self@, handler@.connection_opened_at),
            handler@.at_rest(),
    {
        self.into_handler_at(instant_now())
    }

    /// Turns `self` into the handler of a connection that was established at
    /// `connection_opened_at`: disabled, with nothing to deliver.
    pub fn into_handler_at(self, connection_opened_at: Instant) -> (handler: NotifsOutHandler<
        TSubstream,
    >)
        ensures
            handler@ == HandlerModel::<TSubstream>::new(self@, connection_opened_at),
            handler@.at_rest(),
    {
        let handler = NotifsOutHandler {
            proto_name: self.proto_name,
            state: State::Disabled,
            when_connection_open: connection_opened_at,
            events_queue: queue_new(),
        };
        assert(handler@.pending_events =~= Seq::empty());
        handler
    }
}

/// Handler for an outbound notification substream.
///
/// When a connection is established, this handler starts in the "disabled" state, meaning that
/// no substream will be open.
///
/// One can try open a substream by sending an [`NotifsOutHandlerIn::Enable`] message to the
/// handler. Once done, the handler will try to establish then maintain an outbound substream with
/// the remote for the purpose of sending notifications to it.
pub struct NotifsOutHandler<TSubstream> {
    /// Name of the protocol to negotiate.
    proto_name: Vec<u8>,
    /// Relationship with the node we're connected to.
    state: State<TSubstream>,
    /// When the connection with the remote has been successfully established.
    when_connection_open: Instant,
    /// Queue of events to send to the outside.
    ///
    /// This queue is only ever modified to insert elements at the back, or remove the first
    /// element.
    events_queue: EventQueue,
}

impl<TSubstream> View for NotifsOutHandler<TSubstream> {
    type V = HandlerModel<TSubstream>;

    closed spec fn view(&self) -> HandlerModel<TSubstream> {
        HandlerModel {
            protocol_name: self.proto_name@,
            state: self.state,
            connection_opened_at: self.when_connection_open,
            pending_events: queued(self.events_queue).map_values(|event: HandlerEvent| event@),
        }
    }
}

/// The view of an event that may be there.
pub open spec fn event_view(event: Option<HandlerEvent>) -> Option<HandlerEventView> {
    match event {
        Some(event) => Some(event@),
        None => None,
    }
}

impl<TSubstream> NotifsOutHandler<TSubstream> {
    /// Returns true if the handler is enabled.
    pub fn is_enabled(&self) -> (enabled: bool)
        ensures
            enabled == self@.state.is_enabled(),
    {
        match &self.state {
            State::Disabled => false,
            State::DisabledOpening => false,
            State::DisabledOpen(_) => false,
            State::Opening => true,
            State::Refused => true,
            State::Open(_) => true,
            State::Poisoned => false,
        }
    }

    /// Returns true if the substream is open.
    pub fn is_open(&self) -> (open: bool)
        ensures
            open == self@.state.is_open(),
    {
        match &self.state {
            State::Disabled => false,
            State::DisabledOpening => false,
            State::DisabledOpen(_) => true,
            State::Opening => false,
            State::Refused => false,
            State::Open(_) => true,
            State::Poisoned => false,
        }
    }

    /// Returns the name of the protocol that we negotiate.
    pub fn protocol_name(&self) -> (name: &[u8])
        ensures
            name@ == self@.protocol_name,
    {
        self.proto_name.as_slice()
    }

    /// Returns which state the handler is in.
    pub fn state_kind(&self) -> (kind: StateKind)
        ensures
            kind == self@.state.kind(),
    {
        match &self.state {
            State::Disabled => StateKind::Disabled,
            State::DisabledOpen(_) => StateKind::DisabledOpen,
            State::DisabledOpening => StateKind::DisabledOpening,
            State::Opening => StateKind::Opening,
            State::Refused => StateKind::Refused,
            State::Open(_) => StateKind::Open,
            State::Poisoned => StateKind::Poisoned,
        }
    }

    /// Returns when the connection was established.
    pub fn connection_opened_at(&self) -> (at: Instant)
        ensures
            at == self@.connection_opened_at,
    {
        self.when_connection_open
    }

    /// Returns the number of events that wait for delivery.
    pub fn pending_len(&self) -> (len: usize)
        ensures
            len == self@.pending_events.len(),
    {
        queue_len(&self.events_queue)
    }

    /// Returns whether the queue takes one more event.
    pub fn has_room(&self) -> (room: bool)
        ensures
            room == self@.has_room(),
    {
        queue_len(&self.events_queue) <= usize::MAX / 256
    }

    /// Lends the substream that the handler holds, for the driver to work on it. The handler
    /// gets back whatever the driver leaves in its place; nothing else changes.
    pub fn substream_mut(&mut self) -> (lent: Option<&mut TSubstream>)
        ensures
            match lent {
                Some(substream) => match old(self)@.state {
                    State::Open(held) => *substream == held && final(self)@ == old(
                        self,
                    )@.with_state(State::Open(*final(substream))),
                    State::DisabledOpen(held) => *substream == held && final(self)@ == old(
                        self,
                    )@.with_state(State::DisabledOpen(*final(substream))),
                    _ => false,
                },
                None => !old(self)@.state.is_open() && final(self)@ == old(self)@,
            },
    {
        match &mut self.state {
            State::Open(substream) => Some(substream),
            State::DisabledOpen(substream) => Some(substream),
            _ => None,
        }
    }

    /// Appends `event` to the queue.
    fn queue_event(&mut self, event: HandlerEvent)
        requires
            old(self)@.has_room(),
        ensures
            final(self)@ == old(self)@.with_queued(event@),
    {
        queue_push(&mut self.events_queue, event);
        assert(final(self)@.pending_events =~= old(self)@.pending_events.push(event@));
    }

    /// Appends a request for a substream of the handler's protocol to the queue.
    fn queue_open_request(&mut self)
        requires
            old(self)@.has_room(),
        ensures
            final(self)@ == old(self)@.with_queued(old(self)@.open_request()),
    {
        let request = HandlerEvent::OutboundSubstreamRequest {
            protocol_name: self.proto_name.clone(),
            timeout_secs: OPEN_TIMEOUT_SECS,
        };
        self.queue_event(request);
    }

    /// Takes a command of the overlay controller.
    ///
    /// `Enable` and `Disable` change the state as [`HandlerModel::enable`] and
    /// [`HandlerModel::disable`] say; one that the state does not allow changes nothing and
    /// is reported as misuse. The payload of a `Send` is handed back for the open substream
    /// where there is one, and dropped where there is none.
    pub fn inject_event(&mut self, message: NotifsOutHandlerIn) -> (effect: CommandEffect)
        requires
            message is Enable && old(self)@.state is Disabled ==> old(self)@.has_room(),
        ensures
            final(self)@ == old(self)@.inject_event(message),
            effect == old(self)@.command_effect(message),
            old(self)@.at_rest() ==> final(self)@.at_rest(),
    {
        match message {
            NotifsOutHandlerIn::Enable => {
                let mut state = State::Poisoned;
                core::mem::swap(&mut state, &mut self.state);
                match state {
                    State::Disabled => {
                        self.state = State::Opening;
                        self.queue_open_request();
                        CommandEffect::Done
                    },
                    State::DisabledOpening => {
                        self.state = State::Opening;
                        CommandEffect::Done
                    },
                    State::DisabledOpen(sub) => {
                        self.state = State::Open(sub);
                        CommandEffect::Done
                    },
                    State::Poisoned => CommandEffect::Ignored(Misuse::Poisoned),
                    enabled => {
                        self.state = enabled;
                        CommandEffect::Ignored(Misuse::AlreadyEnabled)
                    },
                }
            },
            NotifsOutHandlerIn::Disable => {
                let mut state = State::Poisoned;
                core::mem::swap(&mut state, &mut self.state);
                match state {
                    State::Opening => {
                        self.state = State::DisabledOpening;
                        CommandEffect::Done
                    },
                    State::Refused => {
                        self.state = State::Disabled;
                        CommandEffect::Done
                    },
                    State::Open(sub) => {
                        self.state = State::DisabledOpen(sub);
                        CommandEffect::Done
                    },
                    State::DisabledOpen(sub) => {
                        self.state = State::DisabledOpen(sub);
                        CommandEffect::Done
                    },
                    State::Poisoned => CommandEffect::Ignored(Misuse::Poisoned),
                    disabled => {
                        self.state = disabled;
                        CommandEffect::Ignored(Misuse::AlreadyDisabled)
                    },
                }
            },
            NotifsOutHandlerIn::Send(msg) => {
                if let State::Open(_) = &self.state {
                    CommandEffect::Enqueue(msg)
                } else {
                    CommandEffect::Done
                }
            },
        }
    }

    /// Takes the substream that a negotiation has yielded, with the handshake of the remote.
    ///
    /// An enabled handler that was waiting for it keeps the substream and reports it as
    /// open. A handler that was disabled meanwhile keeps it to close it. In every other state
    /// the substream is dropped and the call reported as misuse.
    pub fn inject_fully_negotiated_outbound(
        &mut self,
        protocol: (Vec<u8>, TSubstream),
        _info: (),
    ) -> (misuse: Option<Misuse>)
        requires
            old(self)@.state is Opening ==> old(self)@.has_room(),
        ensures
            final(self)@ == old(self)@.negotiated(protocol.0@, protocol.1),
            misuse == old(self)@.negotiated_misuse(),
            old(self)@.at_rest() ==> final(self)@.at_rest(),
    {
        let (handshake_msg, sub) = protocol;
        let mut state = State::Poisoned;
        core::mem::swap(&mut state, &mut self.state);
        match state {
            State::Opening => {
                self.state = State::Open(sub);
                let ev = NotifsOutHandlerOut::Open { handshake: handshake_msg };
                self.queue_event(HandlerEvent::Custom(ev));
                None
            },
            State::DisabledOpening => {
                self.state = State::DisabledOpen(sub);
                None
            },
            State::Poisoned => Some(Misuse::Poisoned),
            other => {
                self.state = other;
                Some(Misuse::UnexpectedSubstream)
            },
        }
    }

    /// Takes the failure of a negotiation, whatever its reason.
    ///
    /// An enabled handler that was waiting for the outcome reports the refusal and does not
    /// try again. A handler that was disabled meanwhile becomes idle. In every other state
    /// the call is reported as misuse.
    pub fn inject_dial_upgrade_error(&mut self, _info: (), _error: DialUpgradeError) -> (misuse:
        Option<Misuse>)
        requires
            old(self)@.state is Opening ==> old(self)@.has_room(),
        ensures
            final(self)@ == old(self)@.dial_failed(),
            misuse == old(self)@.dial_failed_misuse(),
            old(self)@.at_rest() ==> final(self)@.at_rest(),
    {
        let mut state = State::Poisoned;
        core::mem::swap(&mut state, &mut self.state);
        match state {
            State::Opening => {
                self.state = State::Refused;
                let ev = NotifsOutHandlerOut::Refused;
                self.queue_event(HandlerEvent::Custom(ev));
                None
            },
            State::DisabledOpening => {
                self.state = State::Disabled;
                None
            },
            State::Poisoned => Some(Misuse::Poisoned),
            other => {
                self.state = other;
                Some(Misuse::UnexpectedDialError)
            },
        }
    }

    /// Returns the work on the substream that the driver has to do before it polls: none
    /// while events wait for delivery.
    pub fn liveness_work(&self) -> (work: Option<SubstreamIo>)
        ensures
            work == self@.liveness_work(),
    {
        if !queue_is_empty(&self.events_queue) {
            return None;
        }
        match &self.state {
            State::Open(_) => Some(SubstreamIo::Flush),
            State::DisabledOpen(_) => Some(SubstreamIo::Close),
            _ => None,
        }
    }

    /// Delivers the next event, if there is one.
    ///
    /// `outcome` is what the work that [`NotifsOutHandler::liveness_work`] asked for has
    /// reported. It counts only where that work was due. Events that wait are delivered
    /// first, oldest first.
    pub fn poll(&mut self, outcome: SubstreamOutcome) -> (event: Option<HandlerEvent>)
        ensures
            final(self)@ == old(self)@.poll(outcome),
            event_view(event) == old(self)@.poll_event(outcome),
            old(self)@.at_rest() ==> final(self)@.at_rest(),
    {
        // Flush the events queue if necessary.
        if !queue_is_empty(&self.events_queue) {
            let event = queue_remove_first(&mut self.events_queue);
            assert(final(self)@.pending_events =~= old(self)@.pending_events.skip(1));
            return Some(event);
        }
        let mut state = State::Poisoned;
        core::mem::swap(&mut state, &mut self.state);
        match state {
            State::Open(sub) => match outcome {
                SubstreamOutcome::InProgress | SubstreamOutcome::Done => {
                    self.state = State::Open(sub);
                    None
                },
                SubstreamOutcome::Failed => {
                    // We try to re-open a substream.
                    self.state = State::Opening;
                    self.queue_open_request();
                    Some(HandlerEvent::Custom(NotifsOutHandlerOut::Closed))
                },
            },
            State::DisabledOpen(sub) => match outcome {
                SubstreamOutcome::InProgress => {
                    self.state = State::DisabledOpen(sub);
                    None
                },
                SubstreamOutcome::Done | SubstreamOutcome::Failed => {
                    self.state = State::Disabled;
                    Some(HandlerEvent::Custom(NotifsOutHandlerOut::Closed))
                },
            },
            other => {
                self.state = other;
                None
            },
        }
    }

    /// Returns how long the connection is to be kept alive for this handler.
    ///
    /// While the handler is disabled the answer is the end of the grace period, which the
    /// clock must be able to represent: [`NotifsOutHandler::try_connection_keep_alive`]
    /// finds out.
    pub fn connection_keep_alive(&self) -> (hint: KeepAlive)
        requires
            self@.keep_alive_is_bounded() ==> self@.keep_alive_deadline() is Some,
        ensures
            hint == self@.keep_alive(),
    {
        match &self.state {
            State::Disabled | State::DisabledOpen(_) | State::DisabledOpening => {
                let grace = duration_from_secs(INITIAL_KEEPALIVE_SECS);
                KeepAlive::Until(instant_checked_add(self.when_connection_open, grace).unwrap())
            },
            State::Opening | State::Open(_) => KeepAlive::Yes,
            State::Refused | State::Poisoned => KeepAlive::No,
        }
    }

    /// Returns how long the connection is to be kept alive for this handler, or `None` where
    /// the answer would be a deadline that the clock cannot represent.
    pub fn try_connection_keep_alive(&self) -> (hint: Option<KeepAlive>)
        ensures
            hint == if self@.keep_alive_is_bounded() && self@.keep_alive_deadline() is None {
                None
            } else {
                Some(self@.keep_alive())
            },
    {
        match &self.state {
            State::Disabled | State::DisabledOpen(_) | State::DisabledOpening => {
                let grace = duration_from_secs(INITIAL_KEEPALIVE_SECS);
                if instant_checked_add(self.when_connection_open, grace).is_none() {
                    return None;
                }
            },
            _ => {},
        }
        Some(self.connection_keep_alive())
    }
}

} // verus!
