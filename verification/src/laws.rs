//! What holds of the handler over whole runs, proved of its model.
//!
//! The executable handler follows the model step by step, so each law holds of it too.

use crate::clock::{duration_of_secs, instant_plus};
use crate::event::{
    CommandEffect, HandlerEventView, KeepAlive, Misuse, NotifsOutHandlerIn,
    NotifsOutHandlerOutView, SubstreamIo, SubstreamOutcome,
};
use crate::model::{HandlerModel, Input};
use crate::state::State;
use vstd::prelude::*;

verus! {

/// Whether `input` is the command `Enable` or the command `Disable`.
pub open spec fn is_switch<TSubstream>(input: Input<TSubstream>) -> bool {
    input == Input::<TSubstream>::Command(NotifsOutHandlerIn::Enable) || input == Input::<
        TSubstream,
    >::Command(NotifsOutHandlerIn::Disable)
}

/// `Enable` leaves the handler enabled and `Disable` leaves it disabled, whatever it was
/// before.
pub proof fn law_switch_sets_enabled<TSubstream>(handler: HandlerModel<TSubstream>)
    requires
        handler.at_rest(),
    ensures
        handler.inject_event(NotifsOutHandlerIn::Enable).state.is_enabled(),
        !handler.inject_event(NotifsOutHandlerIn::Disable).state.is_enabled(),
{
}

/// A command that is reported as misuse changes nothing: `Enable` on an enabled handler and
/// `Disable` on a disabled one leave the whole handler as it was. So a command given twice
/// does no more than the command given once.
pub proof fn law_misuse_changes_nothing<TSubstream>(
    handler: HandlerModel<TSubstream>,
    message: NotifsOutHandlerIn,
)
    ensures
        handler.command_effect(message) is Ignored ==> handler.inject_event(message) == handler,
        handler.state.is_enabled() ==> handler.inject_event(NotifsOutHandlerIn::Enable)
            == handler,
        !handler.state.is_enabled() ==> handler.inject_event(NotifsOutHandlerIn::Disable)
            == handler,
        message is Enable || message is Disable ==> handler.inject_event(message).inject_event(
            message,
        ) == handler.inject_event(message),
{
}

/// After any run of `Enable` and `Disable` commands, with nothing else happening in between,
/// the handler is enabled exactly if the last of them was `Enable`.
pub proof fn law_enabled_follows_last_switch<TSubstream>(
    handler: HandlerModel<TSubstream>,
    commands: Seq<Input<TSubstream>>,
)
    requires
        handler.at_rest(),
        commands.len() > 0,
        forall|i: int| 0 <= i < commands.len() ==> is_switch(#[trigger] commands[i]),
    ensures
        handler.run(commands).at_rest(),
        handler.run(commands).state.is_enabled() == (commands.last() == Input::<
            TSubstream,
        >::Command(NotifsOutHandlerIn::Enable)),
    decreases commands.len(),
{
    let before = commands.drop_last();
    assert(is_switch(commands[commands.len() - 1]));
    if before.len() > 0 {
        law_enabled_follows_last_switch(handler, before);
    }
}

/// A payload that is sent while no substream is open is dropped: the handler stays as it was,
/// nothing is queued, and nothing is left to the driver.
pub proof fn law_send_without_open_substream<TSubstream>(
    handler: HandlerModel<TSubstream>,
    payload: Vec<u8>,
)
    requires
        !(handler.state is Open),
    ensures
        handler.inject_event(NotifsOutHandlerIn::Send(payload)) == handler,
        handler.command_effect(NotifsOutHandlerIn::Send(payload)) == CommandEffect::Done,
        handler.generated(Input::Command(NotifsOutHandlerIn::Send(payload))).len() == 0,
{
}

/// A negotiation that succeeds for a handler in `Opening` opens the substream and queues
/// exactly one `Open` event, with the handshake of the remote, behind the events that wait.
pub proof fn law_negotiated_while_opening<TSubstream>(
    handler: HandlerModel<TSubstream>,
    handshake: Seq<u8>,
    substream: TSubstream,
)
    requires
        handler.state is Opening,
    ensures
        handler.negotiated(handshake, substream).state == State::Open(substream),
        handler.negotiated(handshake, substream).pending_events == handler.pending_events.push(
            HandlerEventView::Custom(NotifsOutHandlerOutView::Open { handshake }),
        ),
        handler.negotiated_misuse() is None,
{
}

/// A negotiation that succeeds for a handler in `DisabledOpening` queues nothing. The
/// substream is kept, open, by a handler that stays disabled.
pub proof fn law_negotiated_while_disabled<TSubstream>(
    handler: HandlerModel<TSubstream>,
    handshake: Seq<u8>,
    substream: TSubstream,
)
    requires
        handler.state is DisabledOpening,
    ensures
        handler.negotiated(handshake, substream) == handler.with_state(
            State::DisabledOpen(substream),
        ),
        handler.negotiated(handshake, substream).state.is_open(),
        !handler.negotiated(handshake, substream).state.is_enabled(),
        handler.generated(Input::Negotiated { handshake, substream }).len() == 0,
        handler.negotiated_misuse() is None,
{
}

/// Where the flush of the open substream fails, the poll delivers exactly one `Closed`, and
/// the handler is left in `Opening` with one request for a new substream in its queue.
pub proof fn law_flush_failure_reopens<TSubstream>(handler: HandlerModel<TSubstream>)
    requires
        handler.liveness_work() == Some(SubstreamIo::Flush),
    ensures
        handler.poll_event(SubstreamOutcome::Failed) == Some(
            HandlerEventView::Custom(NotifsOutHandlerOutView::Closed),
        ),
        handler.poll(SubstreamOutcome::Failed).state is Opening,
        handler.poll(SubstreamOutcome::Failed).pending_events == seq![handler.open_request()],
        handler.poll(SubstreamOutcome::InProgress) == handler,
        handler.poll(SubstreamOutcome::Done) == handler,
{
}

/// Where the substream of a disabled handler has finished closing, the poll delivers exactly
/// one `Closed` and the handler is left in `Disabled`, with nothing queued. Whether the close
/// succeeded or failed makes no difference.
pub proof fn law_close_ends_in_disabled<TSubstream>(handler: HandlerModel<TSubstream>)
    requires
        handler.liveness_work() == Some(SubstreamIo::Close),
    ensures
        handler.poll(SubstreamOutcome::Done) == handler.with_state(State::Disabled),
        handler.poll(SubstreamOutcome::Failed) == handler.poll(SubstreamOutcome::Done),
        handler.poll_event(SubstreamOutcome::Done) == Some(
            HandlerEventView::Custom(NotifsOutHandlerOutView::Closed),
        ),
        handler.poll_event(SubstreamOutcome::Failed) == handler.poll_event(
            SubstreamOutcome::Done,
        ),
        handler.poll(SubstreamOutcome::Done).pending_events.len() == 0,
        handler.poll(SubstreamOutcome::InProgress) == handler,
{
}

/// Once the remote has refused, the handler does not try again by itself. `Enable` is misuse
/// and changes nothing; every input but `Disable` leaves the handler in `Refused` and brings
/// no event about.
pub proof fn law_refused_is_sticky<TSubstream>(
    handler: HandlerModel<TSubstream>,
    input: Input<TSubstream>,
)
    requires
        handler.state is Refused,
        input != Input::<TSubstream>::Command(NotifsOutHandlerIn::Disable),
    ensures
        handler.step(input).state is Refused,
        handler.generated(input).len() == 0,
        handler.inject_event(NotifsOutHandlerIn::Enable) == handler,
        handler.command_effect(NotifsOutHandlerIn::Enable) == CommandEffect::Ignored(
            Misuse::AlreadyEnabled,
        ),
{
}

/// After a refusal, `Disable` followed by `Enable` asks for a new negotiation: `Disable`
/// queues nothing, and the `Enable` after it queues exactly one request.
pub proof fn law_disable_enable_rearms<TSubstream>(handler: HandlerModel<TSubstream>)
    requires
        handler.state is Refused,
    ensures
        handler.disable() == handler.with_state(State::Disabled),
        handler.disable().enable() == handler.with_state(State::Opening).with_queued(
            handler.open_request(),
        ),
{
}

/// The keep-alive hint by state: without end in `Opening` and `Open`; until the grace period
/// ends, five seconds after the connection was established, in `Disabled`, `DisabledOpen` and
/// `DisabledOpening`; none in `Refused` and `Poisoned`.
pub proof fn law_keep_alive_by_state<TSubstream>(handler: HandlerModel<TSubstream>)
    ensures
        handler.keep_alive_deadline() == instant_plus(
            handler.connection_opened_at,
            duration_of_secs(5),
        ),
        handler.state is Opening || handler.state is Open ==> handler.keep_alive()
            == KeepAlive::Yes,
        handler.state is Disabled || handler.state is DisabledOpen || handler.state
            is DisabledOpening ==> handler.keep_alive() == KeepAlive::Until(
            handler.keep_alive_deadline().unwrap(),
        ),
        handler.state is Refused || handler.state is Poisoned ==> handler.keep_alive()
            == KeepAlive::No,
{
}

/// Whether one of `events` asks for the negotiation of a substream.
pub open spec fn asks_for_substream(events: Seq<HandlerEventView>) -> bool {
    exists|i: int| 0 <= i < events.len() && #[trigger] events[i] is OutboundSubstreamRequest
}

/// At most one negotiation is in flight. The handler asks for a substream exactly when it
/// goes from a state in which no negotiation is in flight to one in which one is; and once one
/// is in flight, nothing but its outcome ends that.
pub proof fn law_one_negotiation_in_flight<TSubstream>(
    handler: HandlerModel<TSubstream>,
    input: Input<TSubstream>,
)
    ensures
        asks_for_substream(handler.generated(input)) <==> !handler.state.is_negotiating()
            && handler.step(input).state.is_negotiating(),
        handler.state.is_negotiating() && !handler.step(input).state.is_negotiating() ==> input
            is Negotiated || input is DialFailed,
        handler.state.is_negotiating() && (input is Negotiated || input is DialFailed)
            ==> !handler.step(input).state.is_negotiating(),
{
    let generated = handler.generated(input);
    if !handler.state.is_negotiating() && handler.step(input).state.is_negotiating() {
        assert(generated[generated.len() - 1] is OutboundSubstreamRequest);
    }
}

/// A handler that is disabled while its negotiation is in flight takes the outcome when it
/// comes, without a word to the controller: a substream is kept to be closed, a failure leaves
/// the handler idle. Neither is misuse.
pub proof fn law_disable_absorbs_outcome<TSubstream>(
    handler: HandlerModel<TSubstream>,
    handshake: Seq<u8>,
    substream: TSubstream,
)
    requires
        handler.state is Opening,
    ensures
        handler.disable() == handler.with_state(State::DisabledOpening),
        handler.disable().negotiated(handshake, substream) == handler.with_state(
            State::DisabledOpen(substream),
        ),
        handler.disable().negotiated_misuse() is None,
        handler.disable().dial_failed() == handler.with_state(State::Disabled),
        handler.disable().dial_failed_misuse() is None,
{
}

/// The handler holds a substream exactly while one is open. No command changes which one it
/// is. A negotiation that the handler waited for puts its substream there, and the substream
/// of any other is not kept. The substream leaves the handler only where a poll finds that it
/// has ended.
pub proof fn law_substream_is_held_while_open<TSubstream>(
    handler: HandlerModel<TSubstream>,
    input: Input<TSubstream>,
)
    ensures
        handler.state.substream() is Some <==> handler.state.is_open(),
        handler.step(input).state.substream() == (match input {
            Input::Command(_) | Input::DialFailed => handler.state.substream(),
            Input::Negotiated { substream, .. } => if handler.state.is_negotiating() {
                Some(substream)
            } else {
                handler.state.substream()
            },
            Input::Poll(outcome) => if handler.pending_events.len() == 0
                && handler.substream_ends(outcome) {
                None
            } else {
                handler.state.substream()
            },
        }),
{
}

/// The name of the protocol and the instant at which the connection was established stay
/// what they were when the handler was made.
pub proof fn law_identity_is_kept<TSubstream>(
    handler: HandlerModel<TSubstream>,
    inputs: Seq<Input<TSubstream>>,
)
    ensures
        handler.run(inputs).protocol_name == handler.protocol_name,
        handler.run(inputs).connection_opened_at == handler.connection_opened_at,
    decreases inputs.len(),
{
    if inputs.len() > 0 {
        law_identity_is_kept(handler, inputs.drop_last());
    }
}

/// A handler is made at rest, and no input brings it into the state that stands in during a
/// transition.
pub proof fn law_never_poisoned<TSubstream>(
    handler: HandlerModel<TSubstream>,
    inputs: Seq<Input<TSubstream>>,
)
    requires
        handler.at_rest(),
    ensures
        HandlerModel::<TSubstream>::new(handler.protocol_name, handler.connection_opened_at)
            .at_rest(),
        handler.run(inputs).at_rest(),
    decreases inputs.len(),
{
    if inputs.len() > 0 {
        law_never_poisoned(handler, inputs.drop_last());
    }
}

/// One input keeps the order of events: what it hands out, followed by what waits after it,
/// is what waited before it, followed by what it brought about.
pub proof fn law_fifo_step<TSubstream>(
    handler: HandlerModel<TSubstream>,
    input: Input<TSubstream>,
)
    ensures
        handler.delivered(input) + handler.step(input).pending_events == handler.pending_events
            + handler.generated(input),
{
}

/// Events are delivered in the order in which they were brought about: over any run, what
/// was handed out, followed by what still waits, is what waited at the start, followed by
/// what the run brought about.
pub proof fn law_fifo_run<TSubstream>(
    handler: HandlerModel<TSubstream>,
    inputs: Seq<Input<TSubstream>>,
)
    ensures
        handler.run_delivered(inputs) + handler.run(inputs).pending_events
            == handler.pending_events + handler.run_generated(inputs),
    decreases inputs.len(),
{
    if inputs.len() > 0 {
        let before = inputs.drop_last();
        let middle = handler.run(before);
        let delivered = handler.run_delivered(before);
        let generated = handler.run_generated(before);
        law_fifo_run(handler, before);
        law_fifo_step(middle, inputs.last());
        // The last input stands between the same events on either side.
        assert(handler.run_delivered(inputs) + handler.run(inputs).pending_events =~= delivered
            + (middle.delivered(inputs.last()) + middle.step(inputs.last()).pending_events));
        assert(delivered + (middle.pending_events + middle.generated(inputs.last())) =~= (delivered
            + middle.pending_events) + middle.generated(inputs.last()));
        assert((handler.pending_events + generated) + middle.generated(inputs.last())
            =~= handler.pending_events + handler.run_generated(inputs));
    }
}

/// The `Open` event of a substream precedes every event that is brought about after it: over
/// any run that follows, it keeps its place behind the events that waited before it and ahead
/// of all that the run brings about.
pub proof fn law_open_precedes_later_events<TSubstream>(
    handler: HandlerModel<TSubstream>,
    handshake: Seq<u8>,
    substream: TSubstream,
    inputs: Seq<Input<TSubstream>>,
)
    requires
        handler.state is Opening,
    ensures
        ({
            let opened = handler.negotiated(handshake, substream);
            opened.run_delivered(inputs) + opened.run(inputs).pending_events
                == handler.pending_events.push(
                HandlerEventView::Custom(NotifsOutHandlerOutView::Open { handshake }),
            ) + opened.run_generated(inputs)
        }),
{
    law_fifo_run(handler.negotiated(handshake, substream), inputs);
}

} // verus!
