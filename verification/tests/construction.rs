use libp2p::Multiaddr;
use libp2p::PeerId;
use notifs_out::{
    KeepAlive, NotifsOutHandler, NotifsOutHandlerIn, NotifsOutHandlerProto, StateKind,
    SubstreamOutcome,
};
use std::time::{Duration, Instant};

fn some_peer() -> PeerId {
    PeerId::from_bytes(&[0, 4, 1, 2, 3, 4]).unwrap()
}

#[test]
fn into_handler_starts_disabled_now() {
    let proto = NotifsOutHandlerProto::<u64>::new(b"/notif/x".to_vec());
    let point = libp2p::core::ConnectedPoint::Dialer {
        address: Multiaddr::empty(),
        role_override: libp2p::core::Endpoint::Dialer,
    };
    let before = Instant::now();
    let mut handler: NotifsOutHandler<u64> = proto.into_handler(&some_peer(), &point);
    let after = Instant::now();
    assert_eq!(handler.state_kind(), StateKind::Disabled);
    assert!(!handler.is_enabled());
    assert!(!handler.is_open());
    assert_eq!(handler.protocol_name(), b"/notif/x");
    assert_eq!(handler.pending_len(), 0);
    assert_eq!(handler.poll(SubstreamOutcome::InProgress), None);
    assert!(before <= handler.connection_opened_at());
    assert!(handler.connection_opened_at() <= after);
    assert_eq!(
        handler.connection_keep_alive(),
        KeepAlive::Until(handler.connection_opened_at() + Duration::from_secs(5))
    );
}

#[test]
fn connection_metadata_makes_no_difference() {
    let dialer = libp2p::core::ConnectedPoint::Dialer {
        address: Multiaddr::empty(),
        role_override: libp2p::core::Endpoint::Dialer,
    };
    let listener = libp2p::core::ConnectedPoint::Listener {
        local_addr: Multiaddr::empty(),
        send_back_addr: Multiaddr::empty(),
    };
    for point in [dialer, listener] {
        let proto = NotifsOutHandlerProto::<u64>::new(b"/notif/x".to_vec());
        let mut handler = proto.into_handler(&some_peer(), &point);
        assert_eq!(handler.state_kind(), StateKind::Disabled);
        handler.inject_event(NotifsOutHandlerIn::Enable);
        assert_eq!(handler.state_kind(), StateKind::Opening);
        assert_eq!(handler.pending_len(), 1);
    }
}

#[test]
fn into_handler_at_keeps_the_given_instant() {
    let start = Instant::now();
    let handler = NotifsOutHandlerProto::<u64>::new(vec![7]).into_handler_at(start);
    assert_eq!(handler.connection_opened_at(), start);
    assert_eq!(handler.protocol_name(), &[7]);
    assert_eq!(handler.state_kind(), StateKind::Disabled);
    assert_eq!(handler.pending_len(), 0);
    assert!(handler.has_room());
}
