use notifs_out::{
    DialUpgradeError, KeepAlive, NotifsOutHandler, NotifsOutHandlerIn, NotifsOutHandlerProto,
    StateKind, SubstreamOutcome, INITIAL_KEEPALIVE_SECS,
};
use std::time::{Duration, Instant};

fn handler_opened_at(at: Instant) -> NotifsOutHandler<()> {
    NotifsOutHandlerProto::new(b"/alive".to_vec()).into_handler_at(at)
}

#[test]
fn grace_period_is_five_seconds() {
    assert_eq!(INITIAL_KEEPALIVE_SECS, 5);
}

#[test]
fn keep_alive_is_bounded_while_disabled() {
    let start = Instant::now();
    let deadline = KeepAlive::Until(start + Duration::from_secs(5));
    // Disabled
    let mut handler = handler_opened_at(start);
    assert_eq!(handler.try_connection_keep_alive(), Some(deadline));
    assert_eq!(handler.connection_keep_alive(), deadline);
    // DisabledOpening
    handler.inject_event(NotifsOutHandlerIn::Enable);
    handler.inject_event(NotifsOutHandlerIn::Disable);
    assert_eq!(handler.state_kind(), StateKind::DisabledOpening);
    assert_eq!(handler.try_connection_keep_alive(), Some(deadline));
    assert_eq!(handler.connection_keep_alive(), deadline);
    // DisabledOpen
    handler.inject_fully_negotiated_outbound((vec![], ()), ());
    assert_eq!(handler.state_kind(), StateKind::DisabledOpen);
    assert_eq!(handler.try_connection_keep_alive(), Some(deadline));
    assert_eq!(handler.connection_keep_alive(), deadline);
}

#[test]
fn keep_alive_deadline_does_not_move() {
    let start = Instant::now();
    let handler = handler_opened_at(start);
    let first = handler.connection_keep_alive();
    let second = handler.connection_keep_alive();
    assert_eq!(first, second);
    assert_ne!(first, KeepAlive::Until(start));
    assert_eq!(handler.connection_opened_at(), start);
}

#[test]
fn keep_alive_is_unbounded_while_a_substream_is_wanted() {
    let mut handler = handler_opened_at(Instant::now());
    handler.inject_event(NotifsOutHandlerIn::Enable);
    assert_eq!(handler.state_kind(), StateKind::Opening);
    assert_eq!(handler.connection_keep_alive(), KeepAlive::Yes);
    assert_eq!(handler.try_connection_keep_alive(), Some(KeepAlive::Yes));
    handler.inject_fully_negotiated_outbound((vec![], ()), ());
    assert_eq!(handler.state_kind(), StateKind::Open);
    assert_eq!(handler.connection_keep_alive(), KeepAlive::Yes);
    assert_eq!(handler.try_connection_keep_alive(), Some(KeepAlive::Yes));
}

#[test]
fn keep_alive_is_none_once_refused() {
    let mut handler = handler_opened_at(Instant::now());
    handler.inject_event(NotifsOutHandlerIn::Enable);
    handler.inject_dial_upgrade_error((), DialUpgradeError::NegotiationFailed);
    assert_eq!(handler.state_kind(), StateKind::Refused);
    assert_eq!(handler.connection_keep_alive(), KeepAlive::No);
    assert_eq!(handler.try_connection_keep_alive(), Some(KeepAlive::No));
}

#[test]
fn keep_alive_is_bounded_again_after_the_substream_closed() {
    let start = Instant::now();
    let mut handler = handler_opened_at(start);
    handler.inject_event(NotifsOutHandlerIn::Enable);
    handler.inject_fully_negotiated_outbound((vec![], ()), ());
    handler.inject_event(NotifsOutHandlerIn::Disable);
    while handler.pending_len() > 0 {
        handler.poll(SubstreamOutcome::InProgress);
    }
    handler.poll(SubstreamOutcome::Done);
    assert_eq!(handler.state_kind(), StateKind::Disabled);
    assert_eq!(
        handler.connection_keep_alive(),
        KeepAlive::Until(start + Duration::from_secs(5))
    );
}
