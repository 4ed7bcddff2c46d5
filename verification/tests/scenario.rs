use notifs_out::{
    CommandEffect, HandlerEvent, NotifsOutHandlerIn, NotifsOutHandlerOut, NotifsOutHandlerProto,
    StateKind, SubstreamIo, SubstreamOutcome,
};
use std::time::Instant;

#[test]
fn life_of_a_substream() {
    let request = HandlerEvent::OutboundSubstreamRequest {
        protocol_name: b"/notifications/1".to_vec(),
        timeout_secs: 10,
    };
    let proto = NotifsOutHandlerProto::<Vec<Vec<u8>>>::new(b"/notifications/1".to_vec());
    let mut handler = proto.into_handler_at(Instant::now());
    assert_eq!(handler.state_kind(), StateKind::Disabled);

    // Enable: one negotiation is asked for.
    assert_eq!(handler.inject_event(NotifsOutHandlerIn::Enable), CommandEffect::Done);
    assert_eq!(handler.state_kind(), StateKind::Opening);
    assert_eq!(handler.pending_len(), 1);
    assert_eq!(handler.liveness_work(), None);
    assert_eq!(handler.poll(SubstreamOutcome::InProgress), Some(request));
    assert_eq!(handler.poll(SubstreamOutcome::InProgress), None);

    // The negotiation succeeds.
    assert_eq!(handler.inject_fully_negotiated_outbound((b"hs".to_vec(), Vec::new()), ()), None);
    assert_eq!(handler.state_kind(), StateKind::Open);
    assert_eq!(
        handler.poll(SubstreamOutcome::InProgress),
        Some(HandlerEvent::Custom(NotifsOutHandlerOut::Open { handshake: b"hs".to_vec() }))
    );

    // A payload is sent: no event, the payload goes to the buffer of the substream.
    match handler.inject_event(NotifsOutHandlerIn::Send(b"payload".to_vec())) {
        CommandEffect::Enqueue(payload) => handler.substream_mut().unwrap().push(payload),
        other => panic!("expected the payload back, got {:?}", other),
    }
    assert_eq!(handler.state_kind(), StateKind::Open);
    assert_eq!(handler.pending_len(), 0);
    assert_eq!(handler.substream_mut(), Some(&mut vec![b"payload".to_vec()]));

    // The flush fails.
    assert_eq!(handler.liveness_work(), Some(SubstreamIo::Flush));
    assert_eq!(
        handler.poll(SubstreamOutcome::Failed),
        Some(HandlerEvent::Custom(NotifsOutHandlerOut::Closed))
    );
    assert_eq!(handler.state_kind(), StateKind::Opening);
    assert_eq!(handler.pending_len(), 1);
    assert_eq!(
        handler.poll(SubstreamOutcome::InProgress),
        Some(HandlerEvent::OutboundSubstreamRequest {
            protocol_name: b"/notifications/1".to_vec(),
            timeout_secs: 10,
        })
    );
    assert_eq!(handler.poll(SubstreamOutcome::InProgress), None);
}
