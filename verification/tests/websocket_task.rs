use bytes::Bytes;
use dave_gateway::aux_network::{
    control_kind, AuxAction, AuxInput, AuxNetwork, BinaryOutcome, ConnectionIds, ControlKind,
    ControlMessage, ControlOutcome, EventAction, LoopControl, OutboundFrame, WsMessage,
    JS_MAX_INT,
};
use dave_gateway::frames::{
    encode_binary_gateway_packet, encode_transition_payload, DaveBinaryOpcode,
};
use dave_gateway::ssrc::SsrcTracker;
use dave_gateway::ws::{CloseFrame, Error};
use dave_gateway::ws_dave::{
    DaveExecuteTransition, DaveInvalidCommitWelcome, DaveOutboundMessage, DavePrepareEpoch,
    DavePrepareTransition,
};
use serde_json::Value;
use serenity_voice_model::id::UserId;
use serenity_voice_model::payload::{
    ClientConnect, ClientDisconnect, Heartbeat, HeartbeatAck, Speaking,
};
use serenity_voice_model::{Event, SpeakingState};

fn ids() -> ConnectionIds {
    ConnectionIds { guild_id: 1, channel_id: Some(2), user_id: 3 }
}

fn task() -> AuxNetwork {
    AuxNetwork::new(44, 5_000, 6, ids(), 100)
}

fn closed(code: u16) -> Error {
    Error::WsClosed(Some(CloseFrame { code, reason: String::new() }))
}

#[test]
fn a_new_task() {
    let aux = task();
    assert!(aux.listens());
    assert_eq!(aux.next_heartbeat, 5_100);
    assert_eq!(aux.speaking, SpeakingState::empty());
    assert_eq!(aux.last_heartbeat_nonce, None);
    assert_eq!(aux.attempt_idx, 6);
}

#[test]
fn heartbeats_carry_their_nonce() {
    let mut aux = task();
    match aux.heartbeat_with(17) {
        Some(Event::Heartbeat(heartbeat)) => assert_eq!(heartbeat.nonce, 17),
        other => panic!("unexpected {other:?}"),
    }
    assert_eq!(aux.last_heartbeat_nonce, Some(17));
    match aux.send_heartbeat() {
        Some(Event::Heartbeat(heartbeat)) => {
            assert!(heartbeat.nonce < JS_MAX_INT);
            assert_eq!(aux.last_heartbeat_nonce, Some(heartbeat.nonce));
        },
        other => panic!("unexpected {other:?}"),
    }
    assert_eq!(JS_MAX_INT, (1u64 << 53) - 1);
}

#[test]
fn nonces_vary() {
    let mut aux = task();
    let mut nonces: Vec<Option<u64>> = Vec::new();
    for _ in 0..8 {
        aux.send_heartbeat();
        nonces.push(aux.last_heartbeat_nonce);
    }
    assert!(nonces.iter().any(|nonce| *nonce != nonces[0]));
}

#[test]
fn a_heartbeat_is_acknowledged_once() {
    let mut aux = task();
    let mut tracker = SsrcTracker::default();
    aux.heartbeat_with(17);
    let ack = Event::from(HeartbeatAck { nonce: 17 });
    assert_eq!(aux.process_ws(&mut tracker, &ack), EventAction::AckMatched);
    assert_eq!(aux.last_heartbeat_nonce, None);
    assert_eq!(aux.process_ws(&mut tracker, &ack), EventAction::AckUnexpected);
    aux.heartbeat_with(18);
    assert_eq!(
        aux.process_ws(&mut tracker, &ack),
        EventAction::AckMismatched { expected: 18, seen: 17 }
    );
    assert_eq!(aux.last_heartbeat_nonce, None);
}

#[test]
fn users_are_tracked() {
    let mut aux = task();
    let mut tracker = SsrcTracker::default();
    let speaking = Event::from(Speaking {
        delay: None,
        speaking: SpeakingState::MICROPHONE,
        ssrc: 9,
        user_id: Some(UserId(70)),
    });
    assert_eq!(aux.process_ws(&mut tracker, &speaking), EventAction::FireSpeakingUpdate);
    assert_eq!(tracker.sender_of(9), Some(70));
    let unknown = Event::from(Speaking {
        delay: None,
        speaking: SpeakingState::empty(),
        ssrc: 10,
        user_id: None,
    });
    assert_eq!(aux.process_ws(&mut tracker, &unknown), EventAction::FireSpeakingUpdate);
    assert_eq!(tracker.sender_of(10), None);
    let left = Event::from(ClientDisconnect { user_id: UserId(70) });
    assert_eq!(aux.process_ws(&mut tracker, &left), EventAction::FireClientDisconnect);
    assert!(tracker.disconnected_users.contains(&70));
    let joined = Event::from(ClientConnect { audio_ssrc: 1, user_id: UserId(71), video_ssrc: 2 });
    assert_eq!(aux.process_ws(&mut tracker, &joined), EventAction::Discontinued);
    assert_eq!(tracker.sender_of(1), None);
    let other = Event::from(Heartbeat { nonce: 1 });
    assert_eq!(aux.process_ws(&mut tracker, &other), EventAction::Ignored);
    assert_eq!(aux.process_ws(&mut tracker, &Event::Resumed), EventAction::Ignored);
}

#[test]
fn speaking_is_told_once() {
    let mut aux = task();
    match aux.set_speaking(true) {
        Some(Event::Speaking(speaking)) => {
            assert_eq!(speaking.delay, Some(0));
            assert_eq!(speaking.speaking, SpeakingState::MICROPHONE);
            assert_eq!(speaking.ssrc, 44);
            assert_eq!(speaking.user_id, None);
        },
        other => panic!("unexpected {other:?}"),
    }
    assert!(aux.set_speaking(true).is_none());
    match aux.set_speaking(false) {
        Some(Event::Speaking(speaking)) => assert_eq!(speaking.speaking, SpeakingState::empty()),
        other => panic!("unexpected {other:?}"),
    }
    assert!(aux.set_speaking(false).is_none());
}

#[test]
fn no_event_is_sent_after_a_failure() {
    let mut aux = task();
    assert_eq!(aux.on_ws_error(&Error::WsClosed(None)), LoopControl::Reconnect);
    assert!(!aux.listens());
    assert!(aux.set_speaking(true).is_none());
    assert_eq!(aux.speaking, SpeakingState::empty());
    assert!(aux.send_heartbeat().is_none());
    assert!(aux.last_heartbeat_nonce.is_some());
    aux.stream_replaced(1_000);
    assert!(aux.listens());
    assert_eq!(aux.next_heartbeat, 6_000);
    assert!(aux.set_speaking(true).is_some());
    assert!(aux.send_heartbeat().is_some());
}

#[test]
fn final_errors_close_the_attempt() {
    let mut aux = task();
    assert_eq!(aux.on_ws_error(&closed(4014)), LoopControl::SignalClosure { attempt_idx: 6 });
    assert!(aux.dont_send);
    assert_eq!(aux.on_ws_error(&closed(4015)), LoopControl::Reconnect);
}

#[test]
fn the_keepalive_interval_changes() {
    let mut aux = task();
    aux.set_keepalive(700, 1_000);
    assert_eq!(aux.heartbeat_interval, 700);
    assert_eq!(aux.next_heartbeat, 1_700);
    aux.schedule_heartbeat(2_000);
    assert_eq!(aux.next_heartbeat, 2_700);
}

#[test]
fn opcodes_of_control_messages() {
    assert_eq!(control_kind(21), Some(ControlKind::PrepareTransition));
    assert_eq!(control_kind(22), Some(ControlKind::ExecuteTransition));
    assert_eq!(control_kind(24), Some(ControlKind::PrepareEpoch));
    assert_eq!(control_kind(31), Some(ControlKind::InvalidCommitWelcome));
    assert_eq!(control_kind(23), None);
    assert_eq!(control_kind(4), None);
}

#[test]
fn control_messages_are_processed() {
    let mut aux = task();
    let prepare = ControlMessage::PrepareTransition(DavePrepareTransition {
        transition_id: 5,
        protocol_version: 1,
    });
    assert_eq!(aux.process_ws_unknown_json(21, Some(prepare)), ControlOutcome::Processed);
    assert!(aux.dave_state.awaiting_transition_execute);
    let execute = ControlMessage::ExecuteTransition(DaveExecuteTransition { transition_id: 5 });
    assert_eq!(aux.process_ws_unknown_json(21, Some(execute)), ControlOutcome::Malformed);
    assert!(aux.dave_state.awaiting_transition_execute);
    assert_eq!(aux.process_ws_unknown_json(22, Some(execute)), ControlOutcome::Processed);
    assert!(!aux.dave_state.awaiting_transition_execute);
    aux.process_ws_unknown_json(21, Some(prepare));
    let invalid =
        ControlMessage::InvalidCommitWelcome(DaveInvalidCommitWelcome { transition_id: 5 });
    assert_eq!(aux.process_ws_unknown_json(31, Some(invalid)), ControlOutcome::Processed);
    assert!(!aux.dave_state.awaiting_transition_execute);
    assert_eq!(aux.process_ws_unknown_json(24, None), ControlOutcome::Malformed);
    assert_eq!(aux.process_ws_unknown_json(77, None), ControlOutcome::Unknown);
    assert_eq!(aux.process_ws_unknown_json(23, Some(invalid)), ControlOutcome::Unknown);
}

#[test]
fn the_group_is_the_channel_or_else_the_guild() {
    let epoch = ControlMessage::PrepareEpoch(DavePrepareEpoch {
        transition_id: 1,
        protocol_version: 1,
        epoch: 1,
    });
    let mut aux = task();
    assert_eq!(aux.process_ws_unknown_json(24, Some(epoch)), ControlOutcome::Processed);
    let session = aux.dave_state.session.as_ref().expect("a session");
    assert_eq!(session.user_id(), 3);
    assert_eq!(session.channel_id(), 2);

    let mut aux = task();
    aux.info.channel_id = None;
    aux.process_ws_unknown_json(24, Some(epoch));
    assert_eq!(aux.dave_state.session.as_ref().expect("a session").channel_id(), 1);
}

#[test]
fn binary_frames_are_processed() {
    let mut aux = task();
    let frame = encode_binary_gateway_packet(7, 28, &[1]);
    assert_eq!(
        aux.process_ws_binary(&frame),
        BinaryOutcome::Dave(DaveBinaryOpcode::MlsCommitWelcome)
    );
    assert_eq!(aux.dave_state.last_binary_sequence, Some(7));
    let frame = encode_binary_gateway_packet(8, 99, &[1]);
    assert_eq!(aux.process_ws_binary(&frame), BinaryOutcome::NonDave(99));
    assert_eq!(aux.dave_state.last_binary_sequence, Some(8));
    assert_eq!(aux.process_ws_binary(&Bytes::new()), BinaryOutcome::Malformed);
    assert_eq!(aux.dave_state.last_binary_sequence, Some(8));
}

#[test]
fn what_is_owed_is_flushed_in_order() {
    let mut aux = task();
    aux.dave_state.pending_key_package = Some(Bytes::from(vec![1u8, 2]));
    aux.dave_state.pending_outbound.push_back(DaveOutboundMessage::Json {
        op: 23,
        data: Value::from(5u64),
    });
    aux.dave_state.pending_outbound.push_back(DaveOutboundMessage::Binary {
        opcode: 28,
        payload: Bytes::from(vec![3u8]),
    });
    aux.dave_state.pending_outbound.push_back(DaveOutboundMessage::Binary {
        opcode: 27,
        payload: Bytes::from(vec![4u8]),
    });

    let frame = aux.flush_dave_outbound().expect("a key package");
    match &frame {
        OutboundFrame::Binary { sequence, frame } => {
            assert_eq!(*sequence, 1);
            assert_eq!(frame.as_ref(), &[26, 1, 2]);
        },
        other => panic!("unexpected {other:?}"),
    }
    assert_eq!(aux.dave_state.last_binary_sequence, None);
    aux.outbound_sent(&frame);
    assert_eq!(aux.dave_state.last_binary_sequence, Some(1));

    let frame = aux.flush_dave_outbound().expect("a report");
    match &frame {
        OutboundFrame::Json { op, data } => {
            assert_eq!(*op, 23);
            assert_eq!(*data, Value::from(5u64));
        },
        other => panic!("unexpected {other:?}"),
    }
    aux.outbound_sent(&frame);
    assert_eq!(aux.dave_state.last_binary_sequence, Some(1));

    let frame = aux.flush_dave_outbound().expect("a commit");
    match &frame {
        OutboundFrame::Binary { sequence, frame } => {
            assert_eq!(*sequence, 2);
            assert_eq!(frame.as_ref(), &[28, 3]);
        },
        other => panic!("unexpected {other:?}"),
    }
    aux.outbound_sent(&frame);

    match aux.flush_dave_outbound() {
        Some(OutboundFrame::Binary { sequence, frame }) => {
            assert_eq!(sequence, 3);
            assert_eq!(frame.as_ref(), &[0, 3, 27, 4]);
        },
        other => panic!("unexpected {other:?}"),
    }
    assert!(aux.flush_dave_outbound().is_none());
}

#[test]
fn sequence_numbers_wrap() {
    let mut aux = task();
    aux.dave_state.last_binary_sequence = Some(u16::MAX);
    aux.dave_state.pending_key_package = Some(Bytes::new());
    match aux.flush_dave_outbound() {
        Some(OutboundFrame::Binary { sequence, .. }) => assert_eq!(sequence, 0),
        other => panic!("unexpected {other:?}"),
    }
}

#[test]
fn the_loop_sends_heartbeats() {
    let mut aux = task();
    let mut tracker = SsrcTracker::default();
    assert!(matches!(aux.run_step(&mut tracker, AuxInput::Started, 150), AuxAction::Wait));
    assert_eq!(aux.next_heartbeat, 5_150);
    let action = aux.run_step(&mut tracker, AuxInput::HeartbeatDue, 200);
    assert!(matches!(action, AuxAction::SendHeartbeat(Some(Event::Heartbeat(_)))));
    assert_eq!(aux.next_heartbeat, 5_150);
    assert!(matches!(aux.run_step(&mut tracker, AuxInput::HeartbeatEnded, 230), AuxAction::Wait));
    assert_eq!(aux.next_heartbeat, 5_230);
    let action = aux.run_step(&mut tracker, AuxInput::Failed(Error::WsClosed(None)), 200);
    assert!(matches!(action, AuxAction::Reconnect));
    let action = aux.run_step(&mut tracker, AuxInput::HeartbeatDue, 250);
    assert!(matches!(action, AuxAction::SendHeartbeat(None)));
    assert!(matches!(aux.run_step(&mut tracker, AuxInput::HeartbeatEnded, 250), AuxAction::Wait));
    assert_eq!(aux.next_heartbeat, 5_250);
    let message = AuxInput::Message(WsMessage::Speaking(true));
    assert!(matches!(aux.run_step(&mut tracker, message, 200), AuxAction::Wait));
    let replaced = AuxInput::Message(WsMessage::Ws);
    assert!(matches!(aux.run_step(&mut tracker, replaced, 300), AuxAction::Wait));
    assert_eq!(aux.next_heartbeat, 5_300);
    let message = AuxInput::Message(WsMessage::Speaking(true));
    let action = aux.run_step(&mut tracker, message, 300);
    assert!(matches!(action, AuxAction::Send(Event::Speaking(_))));
}

#[test]
fn the_loop_delivers_messages() {
    let mut aux = task();
    let mut tracker = SsrcTracker::default();
    let event = Event::from(ClientDisconnect { user_id: UserId(70) });
    let action = aux.run_step(&mut tracker, AuxInput::Message(WsMessage::Deliver(event)), 0);
    assert!(matches!(action, AuxAction::Delivered(EventAction::FireClientDisconnect)));
    assert!(tracker.disconnected_users.contains(&70));

    let frame = encode_binary_gateway_packet(1, 29, &encode_transition_payload(1, &[1]));
    let message = AuxInput::Message(WsMessage::DeliverBinary(frame));
    let action = aux.run_step(&mut tracker, message, 0);
    assert!(matches!(
        action,
        AuxAction::Binary(BinaryOutcome::Dave(DaveBinaryOpcode::MlsAnnounceCommitTransition))
    ));

    let message = AuxInput::Message(WsMessage::DeliverUnknownJson { op: 22, data: None });
    let action = aux.run_step(&mut tracker, message, 0);
    assert!(matches!(action, AuxAction::Control(ControlOutcome::Malformed)));
}

#[test]
fn the_loop_changes_its_interval_and_ignores_the_rest() {
    let mut aux = task();
    let mut tracker = SsrcTracker::default();
    let message = AuxInput::Message(WsMessage::SetKeepalive(10));
    assert!(matches!(aux.run_step(&mut tracker, message, 50), AuxAction::Wait));
    assert_eq!(aux.next_heartbeat, 60);
    let message = AuxInput::Message(WsMessage::ReplaceInterconnect);
    assert!(matches!(aux.run_step(&mut tracker, message, 70), AuxAction::Wait));
    assert!(matches!(aux.run_step(&mut tracker, AuxInput::ReceivedNothing, 70), AuxAction::Wait));
    assert_eq!(aux.next_heartbeat, 60);
}

#[test]
fn the_loop_ends() {
    let mut aux = task();
    let mut tracker = SsrcTracker::default();
    let action = aux.run_step(&mut tracker, AuxInput::Failed(closed(4006)), 0);
    assert!(matches!(action, AuxAction::SignalClosure { attempt_idx: 6 }));
    let action = aux.run_step(&mut tracker, AuxInput::Disconnected, 0);
    assert!(matches!(action, AuxAction::Stop));
}
