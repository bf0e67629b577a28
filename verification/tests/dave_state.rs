use bytes::Bytes;
use dave_gateway::frames::{
    encode_proposals_payload, encode_transition_payload, BinaryGatewayPacket,
};
use dave_gateway::session::{frame_is_overlong, CommitWelcome};
use dave_gateway::ssrc::SsrcTracker;
use dave_gateway::udp_rx::{Received, RtpBody, RxConfig, UdpRx};
use dave_gateway::ws_dave::{
    DaveExecuteTransition, DaveInvalidCommitWelcome, DaveOutboundMessage, DavePrepareEpoch,
    DavePrepareTransition, DaveState,
};
use davey::{DaveSession, SessionStatus};
use openmls::prelude::tls_codec::{DeserializeBytes, Serialize, VLBytes};
use openmls::prelude::{
    BasicCredential, ExternalProposal, ExternalSender, GroupEpoch, GroupId, KeyPackageIn,
    LeafNodeIndex, MlsMessageIn, MlsMessageOut, OpenMlsProvider, ProtocolVersion,
    SenderExtensionIndex, SignatureScheme,
};
use openmls_basic_credential::SignatureKeyPair;
use openmls_rust_crypto::OpenMlsRustCrypto;
use serde_json::Value;
use std::num::NonZeroU16;

const CHANNEL: u64 = 900;

fn prepare_transition(transition_id: u32, protocol_version: u16) -> DavePrepareTransition {
    DavePrepareTransition { transition_id, protocol_version }
}

fn prepare_epoch(transition_id: u32, protocol_version: u16, epoch: u64) -> DavePrepareEpoch {
    DavePrepareEpoch { transition_id, protocol_version, epoch }
}

fn packet(opcode: u8, payload: Bytes) -> BinaryGatewayPacket {
    BinaryGatewayPacket { sequence: None, opcode, payload }
}

fn json_report(message: Option<DaveOutboundMessage>) -> (u8, u64) {
    match message {
        Some(DaveOutboundMessage::Json { op, data }) => {
            assert_eq!(data.as_object().expect("an object").len(), 1);
            (op, data.get("transition_id").and_then(Value::as_u64).expect("a transition"))
        },
        other => panic!("unexpected {other:?}"),
    }
}

/// The gateway's side of the MLS exchange.
struct Gateway {
    keys: SignatureKeyPair,
}

impl Gateway {
    fn new() -> Self {
        let keys = SignatureKeyPair::new(SignatureScheme::ECDSA_SECP256R1_SHA256).expect("keys");
        Gateway { keys }
    }

    fn external_sender(&self) -> Bytes {
        let credential = BasicCredential::new(vec![0; 8]).into();
        let sender = ExternalSender::new(self.keys.public().into(), credential);
        Bytes::from(sender.tls_serialize_detached().expect("an external sender"))
    }

    fn proposals(messages: &[MlsMessageOut]) -> Bytes {
        let mut bytes: Vec<u8> = Vec::new();
        for message in messages {
            bytes.extend(message.tls_serialize_detached().expect("a message"));
        }
        let framed = VLBytes::new(bytes).tls_serialize_detached().expect("a vector");
        encode_proposals_payload(0, &framed)
    }

    fn add(&self, key_package: &[u8], epoch: u64) -> MlsMessageOut {
        let crypto = OpenMlsRustCrypto::default();
        let key_package = KeyPackageIn::tls_deserialize_exact_bytes(key_package)
            .expect("a key package")
            .validate(crypto.crypto(), ProtocolVersion::Mls10)
            .expect("a valid key package");
        ExternalProposal::new_add::<OpenMlsRustCrypto>(
            key_package,
            GroupId::from_slice(&CHANNEL.to_be_bytes()),
            GroupEpoch::from(epoch),
            &self.keys,
            SenderExtensionIndex::new(0),
        )
        .expect("a proposal")
    }

    fn remove(&self, leaf: u32, epoch: u64) -> MlsMessageOut {
        ExternalProposal::new_remove::<OpenMlsRustCrypto>(
            LeafNodeIndex::new(leaf),
            GroupId::from_slice(&CHANNEL.to_be_bytes()),
            GroupEpoch::from(epoch),
            &self.keys,
            SenderExtensionIndex::new(0),
        )
        .expect("a proposal")
    }
}

fn status(state: &DaveState) -> SessionStatus {
    state.session.as_ref().expect("a session").status()
}

/// A state with a session of the first epoch, whose key package has been taken.
fn member(user_id: u64, gateway: &Gateway) -> (DaveState, Bytes) {
    let mut state = DaveState::default();
    state.on_prepare_epoch(prepare_epoch(1, 1, 1), user_id, CHANNEL);
    assert_eq!(status(&state), SessionStatus::INACTIVE);
    state.take_pending_key_package().expect("a key package");
    state.on_binary_packet(&packet(25, gateway.external_sender()));
    assert_eq!(status(&state), SessionStatus::PENDING);
    assert!(state.seen_external_sender);
    let key_package = state.take_pending_key_package().expect("a key package");
    (state, key_package)
}

/// Two members of one group: the first one commits the second one's addition.
fn group_of_two() -> (DaveState, DaveState, Gateway) {
    let gateway = Gateway::new();
    let (mut first, _) = member(1, &gateway);
    let (mut second, key_package) = member(2, &gateway);

    let proposals = Gateway::proposals(&[gateway.add(&key_package, 0)]);
    first.on_binary_packet(&packet(27, proposals));
    assert_eq!(status(&first), SessionStatus::AWAITING_RESPONSE);
    assert!(!first.dave_ready());
    let sent = match first.take_pending_outbound() {
        Some(DaveOutboundMessage::Binary { opcode: 28, payload }) => payload,
        other => panic!("unexpected {other:?}"),
    };
    let commit_len = commit_length(&sent);
    let commit = &sent[..commit_len];
    let welcome = &sent[commit_len..];
    assert!(!welcome.is_empty());

    first.on_binary_packet(&packet(29, encode_transition_payload(1, commit)));
    assert_eq!(json_report(first.take_pending_outbound()), (23, 1));
    assert!(first.dave_ready());

    second.on_binary_packet(&packet(30, encode_transition_payload(1, welcome)));
    assert_eq!(json_report(second.take_pending_outbound()), (23, 1));
    assert!(second.dave_ready());
    (first, second, gateway)
}

/// The length of the commit that comes first in a commit with its welcome.
fn commit_length(commit_welcome: &[u8]) -> usize {
    let (_, welcome) = MlsMessageIn::tls_deserialize_bytes(commit_welcome).expect("a commit");
    commit_welcome.len() - welcome.len()
}

#[test]
fn the_initial_state() {
    let mut state = DaveState::default();
    assert_eq!(state.handshake_status(), ("idle", false, false, false));
    assert!(state.take_pending_key_package().is_none());
    assert!(state.take_pending_outbound().is_none());
    assert!(!state.dave_ready());
    assert!(state.decrypt_opus_for_user(1, &[1, 2]).is_none());
    assert!(state.encrypt_opus_for_self(&[1, 2]).is_none());
}

#[test]
fn local_ids_are_noted() {
    let mut state = DaveState::default();
    state.set_local_ids(3, 4);
    assert_eq!(state.local_user_id, Some(3));
    assert_eq!(state.local_channel_id, Some(4));
}

#[test]
fn a_transition_is_prepared_and_executed() {
    let mut state = DaveState::default();
    state.on_prepare_transition(prepare_transition(5, 1));
    assert_eq!(state.handshake_status(), ("awaiting_execute", true, false, false));
    assert_eq!(state.transition_id, Some(5));
    assert_eq!(state.protocol_version, Some(1));
    state.on_execute_transition(DaveExecuteTransition { transition_id: 4 });
    assert!(state.awaiting_transition_execute);
    state.on_execute_transition(DaveExecuteTransition { transition_id: 5 });
    assert_eq!(state.handshake_status(), ("transitioning", true, false, false));
}

#[test]
fn stale_announcements_are_only_noted() {
    let mut state = DaveState::default();
    state.on_prepare_transition(prepare_transition(5, 1));
    state.on_prepare_transition(prepare_transition(4, 9));
    assert_eq!(state.transition_id, Some(5));
    assert_eq!(state.protocol_version, Some(1));
    state.on_prepare_epoch(prepare_epoch(4, 9, 7), 1, CHANNEL);
    assert!(state.seen_prepare_epoch);
    assert_eq!(state.epoch, None);
    assert!(state.session.is_none());
    state.on_prepare_transition(prepare_transition(5, 0));
    assert_eq!(state.protocol_version, Some(0));
}

#[test]
fn an_invalid_commit_ends_the_wait() {
    let mut state = DaveState::default();
    state.on_prepare_transition(prepare_transition(5, 1));
    state.on_invalid_commit_welcome(DaveInvalidCommitWelcome { transition_id: 6 });
    assert!(state.awaiting_transition_execute);
    state.on_invalid_commit_welcome(DaveInvalidCommitWelcome { transition_id: 5 });
    assert!(!state.awaiting_transition_execute);
}

#[test]
fn the_first_epoch_makes_a_session_and_a_key_package() {
    let mut state = DaveState::default();
    state.on_prepare_epoch(prepare_epoch(1, 1, 1), 11, CHANNEL);
    let session = state.session.as_ref().expect("a session");
    assert_eq!(session.user_id(), 11);
    assert_eq!(session.channel_id(), CHANNEL);
    assert_eq!(session.protocol_version().get(), 1);
    assert_eq!(state.epoch, Some(1));
    assert!(!state.dave_ready());
    let key_package = state.take_pending_key_package().expect("a key package");
    assert!(KeyPackageIn::tls_deserialize_exact_bytes(&key_package).is_ok());
    assert!(state.take_pending_key_package().is_none());
    assert!(state.take_pending_outbound().is_none());
}

#[test]
fn an_unsupported_version_falls_back() {
    let mut state = DaveState::default();
    state.on_prepare_epoch(prepare_epoch(1, 77, 3), 11, CHANNEL);
    let session = state.session.as_ref().expect("a session");
    assert_eq!(session.protocol_version().get(), 1);
    assert_eq!(state.protocol_version, Some(77));
}

#[test]
fn transport_only_mode_drops_the_session() {
    let mut state = DaveState::default();
    state.on_prepare_epoch(prepare_epoch(1, 1, 1), 11, CHANNEL);
    state.on_prepare_epoch(prepare_epoch(2, 0, 1), 11, CHANNEL);
    assert!(state.session.is_none());
    assert!(state.take_pending_key_package().is_none());
    assert!(state.take_pending_outbound().is_none());
    assert_eq!(state.protocol_version, Some(0));
}

#[test]
fn the_same_epoch_reports_readiness_at_once() {
    let mut state = DaveState::default();
    state.on_prepare_epoch(prepare_epoch(1, 1, 4), 11, CHANNEL);
    assert!(state.take_pending_outbound().is_none());
    state.take_pending_key_package().expect("a key package");
    state.on_prepare_epoch(prepare_epoch(2, 1, 4), 11, CHANNEL);
    assert_eq!(json_report(state.take_pending_outbound()), (23, 2));
    assert!(state.take_pending_key_package().is_none());
    state.on_prepare_epoch(prepare_epoch(3, 1, 5), 11, CHANNEL);
    assert!(state.take_pending_outbound().is_none());
}

#[test]
fn an_external_sender_needs_local_ids_or_a_session() {
    let gateway = Gateway::new();
    let mut state = DaveState::default();
    state.on_binary_packet(&packet(25, gateway.external_sender()));
    assert!(state.session.is_none());
    assert!(!state.seen_external_sender);
    state.set_local_ids(5, CHANNEL);
    state.on_binary_packet(&packet(25, gateway.external_sender()));
    assert!(state.seen_external_sender);
    assert_eq!(status(&state), SessionStatus::PENDING);
    assert!(state.take_pending_key_package().is_some());
}

#[test]
fn an_external_sender_makes_no_session_of_an_unsupported_version() {
    let mut state = DaveState::default();
    state.set_local_ids(5, CHANNEL);
    state.on_prepare_transition(prepare_transition(1, 77));
    state.on_binary_packet(&packet(25, Gateway::new().external_sender()));
    assert!(state.session.is_none());
    assert!(!state.seen_external_sender);
    state.on_prepare_transition(prepare_transition(2, 0));
    state.on_binary_packet(&packet(25, Gateway::new().external_sender()));
    assert!(state.session.is_some());
}

#[test]
fn a_bad_external_sender_is_seen_but_refused() {
    let mut state = DaveState::default();
    state.set_local_ids(5, CHANNEL);
    state.on_binary_packet(&packet(25, Bytes::from(vec![1u8, 2, 3])));
    assert!(state.seen_external_sender);
    assert_eq!(status(&state), SessionStatus::INACTIVE);
    assert!(state.take_pending_key_package().is_some());
}

#[test]
fn sequence_numbers_are_noted() {
    let mut state = DaveState::default();
    let numbered = BinaryGatewayPacket { sequence: Some(9), opcode: 200, payload: Bytes::new() };
    state.on_binary_packet(&numbered);
    assert_eq!(state.last_binary_sequence, Some(9));
    state.on_binary_packet(&packet(28, Bytes::new()));
    assert_eq!(state.last_binary_sequence, Some(9));
}

#[test]
fn refused_proposals_are_reported_for_the_transition_at_hand() {
    let mut state = DaveState::default();
    state.on_prepare_epoch(prepare_epoch(8, 1, 1), 11, CHANNEL);
    state.on_binary_packet(&packet(27, Bytes::from(vec![0u8, 1, 2])));
    assert_eq!(json_report(state.take_pending_outbound()), (31, 8));
    state.on_binary_packet(&packet(27, Bytes::from(vec![1u8, 1, 2])));
    assert_eq!(json_report(state.take_pending_outbound()), (31, 8));
    state.on_binary_packet(&packet(27, Bytes::new()));
    assert!(state.take_pending_outbound().is_none());
}

#[test]
fn refused_commits_and_welcomes_are_reported() {
    let mut state = DaveState::default();
    state.on_prepare_epoch(prepare_epoch(8, 1, 1), 11, CHANNEL);
    state.on_binary_packet(&packet(29, encode_transition_payload(8, &[1])));
    assert_eq!(json_report(state.take_pending_outbound()), (31, 8));
    state.on_binary_packet(&packet(30, encode_transition_payload(8, &[1])));
    assert_eq!(json_report(state.take_pending_outbound()), (31, 8));
    assert!(!state.dave_ready());
}

#[test]
fn other_transitions_are_reported_as_invalid() {
    let (mut first, _, _) = group_of_two();
    for opcode in [29u8, 30] {
        first.on_binary_packet(&packet(opcode, encode_transition_payload(3, &[1])));
        assert_eq!(json_report(first.take_pending_outbound()), (31, 3));
        assert_eq!(first.transition_id, Some(1));
        assert!(first.dave_ready());
    }
}

#[test]
fn frames_too_short_for_a_transition_are_ignored() {
    let mut state = DaveState::default();
    state.on_prepare_epoch(prepare_epoch(8, 1, 1), 11, CHANNEL);
    state.on_binary_packet(&packet(29, Bytes::from(vec![8u8])));
    state.on_binary_packet(&packet(30, Bytes::new()));
    assert!(state.take_pending_outbound().is_none());
}

#[test]
fn a_commit_enters_its_transition() {
    let mut state = DaveState::default();
    state.set_local_ids(11, CHANNEL);
    state.on_binary_packet(&packet(25, Gateway::new().external_sender()));
    assert_eq!(state.transition_id, None);
    state.on_binary_packet(&packet(29, encode_transition_payload(6, &[1])));
    assert_eq!(state.transition_id, Some(6));
    assert_eq!(json_report(state.take_pending_outbound()), (31, 6));
}

#[test]
fn without_a_session_binary_frames_change_nothing() {
    let mut state = DaveState::default();
    state.on_binary_packet(&packet(27, encode_proposals_payload(0, &[1])));
    state.on_binary_packet(&packet(29, encode_transition_payload(6, &[1])));
    state.on_binary_packet(&packet(30, encode_transition_payload(6, &[1])));
    assert_eq!(state.transition_id, None);
    assert!(state.take_pending_outbound().is_none());
}

#[test]
fn answers_are_owed_in_order() {
    let mut state = DaveState::default();
    state.on_prepare_transition(prepare_transition(2, 1));
    let commit = CommitWelcome { commit: vec![1, 2], welcome: Some(vec![3]) };
    state.finish_proposals::<()>(Ok(Some(commit)));
    state.finish_proposals::<()>(Ok(None));
    let commit = CommitWelcome { commit: vec![4], welcome: None };
    state.finish_proposals::<()>(Ok(Some(commit)));
    state.finish_proposals(Err(()));
    state.finish_transition(2, true);
    state.finish_transition(2, false);
    match state.take_pending_outbound() {
        Some(DaveOutboundMessage::Binary { opcode: 28, payload }) => {
            assert_eq!(payload.as_ref(), &[1, 2, 3]);
        },
        other => panic!("unexpected {other:?}"),
    }
    match state.take_pending_outbound() {
        Some(DaveOutboundMessage::Binary { opcode: 28, payload }) => {
            assert_eq!(payload.as_ref(), &[4]);
        },
        other => panic!("unexpected {other:?}"),
    }
    assert_eq!(json_report(state.take_pending_outbound()), (31, 2));
    assert_eq!(json_report(state.take_pending_outbound()), (23, 2));
    assert_eq!(json_report(state.take_pending_outbound()), (31, 2));
    assert!(state.take_pending_outbound().is_none());
}

#[test]
fn refused_proposals_without_a_transition_are_not_reported() {
    let mut state = DaveState::default();
    state.finish_proposals(Err(()));
    assert!(state.take_pending_outbound().is_none());
}

#[test]
fn entering_a_transition() {
    let mut state = DaveState::default();
    assert!(state.enter_transition(4));
    assert_eq!(state.transition_id, Some(4));
    assert!(state.enter_transition(4));
    assert!(!state.enter_transition(5));
    assert_eq!(state.transition_id, Some(4));
    assert_eq!(json_report(state.take_pending_outbound()), (31, 5));
}

#[test]
fn key_packages_replace_each_other() {
    let mut state = DaveState::default();
    state.finish_key_package::<()>(Ok(vec![1]));
    state.finish_key_package::<()>(Ok(vec![2, 3]));
    state.finish_key_package(Err(()));
    let package = state.take_pending_key_package().expect("a key package");
    assert_eq!(package.as_ref(), &[2, 3]);
}

#[test]
fn adopting_no_session_leaves_none() {
    let mut state = DaveState::default();
    let version = NonZeroU16::new(1).expect("not zero");
    let session = DaveSession::new(version, 1, CHANNEL, None).expect("a session");
    state.adopt_session(Some(session));
    assert!(state.session.is_some());
    assert!(state.pending_key_package.is_some());
    state.adopt_session(None);
    assert!(state.session.is_none());
    assert!(state.pending_key_package.is_some());
}

#[test]
fn members_of_a_group_understand_each_other() {
    let (mut first, mut second, _) = group_of_two();
    let frame = vec![0x50u8, 1, 2, 3, 4, 5, 6, 7];
    let sealed = first.encrypt_opus_for_self(&frame).expect("a sealed frame");
    assert_ne!(sealed, frame);
    let opened = second.decrypt_opus_for_user(1, &sealed).expect("an opened frame");
    assert_eq!(opened, frame);
    assert!(second.decrypt_opus_for_user(3, &sealed).is_none());
    let mut damaged = sealed.clone();
    damaged[2] ^= 1;
    assert!(second.decrypt_opus_for_user(1, &damaged).is_none());
}

/// The end of a sealed frame: a tag, the given numbers, their size, the marker.
fn sealed_end(numbers: &[u8]) -> Vec<u8> {
    let mut frame = vec![7u8; 8];
    frame.extend_from_slice(numbers);
    frame.push((numbers.len() + 11) as u8);
    frame.extend_from_slice(&[0xFA, 0xFA]);
    frame
}

#[test]
fn overlong_numbers_are_found() {
    let mut overlong = vec![0x80u8; 10];
    overlong.push(0);
    assert!(frame_is_overlong(&sealed_end(&overlong)));
    let mut late = vec![1u8, 0x85, 2];
    late.extend_from_slice(&overlong);
    assert!(frame_is_overlong(&sealed_end(&late)));
    let mut in_a_longer_frame = vec![0x80u8; 30];
    in_a_longer_frame.extend_from_slice(&sealed_end(&overlong));
    assert!(frame_is_overlong(&in_a_longer_frame));

    assert!(!frame_is_overlong(&sealed_end(&[0x80; 10])));
    assert!(!frame_is_overlong(&sealed_end(&overlong[1..])));
    assert!(!frame_is_overlong(&sealed_end(&[])));
    let mut outside = vec![0x80u8; 30];
    outside.extend_from_slice(&sealed_end(&[1]));
    assert!(!frame_is_overlong(&outside));
    let mut unmarked = sealed_end(&overlong);
    *unmarked.last_mut().expect("a byte") = 0xFB;
    assert!(!frame_is_overlong(&unmarked));
    let mut too_short = sealed_end(&overlong);
    let size = too_short.len() - 3;
    too_short[size] = 23;
    assert!(!frame_is_overlong(&too_short));
    assert!(!frame_is_overlong(&[]));
}

#[test]
fn frames_with_overlong_numbers_are_not_opened() {
    let (_, mut second, _) = group_of_two();
    let config = RxConfig { should_decrypt: true, decode_channels: 2, decode_sample_rate: 48_000 };
    let mut rx = UdpRx::new(0, 0, config, 0);
    let mut tracker = SsrcTracker::default();
    tracker.announce(1, 77);
    let mut overlong = vec![0x80u8; 10];
    overlong.push(0);
    let mut in_a_range = vec![1u8, 0];
    in_a_range.extend_from_slice(&overlong);
    for numbers in [&overlong[..], &in_a_range[..], &[0x80; 10][..], &overlong[1..]] {
        let mut packet = vec![0x80u8, 0x78, 0, 1, 0, 0, 0, 2, 0, 0, 0, 77];
        packet.extend_from_slice(&sealed_end(numbers));
        let before = packet.clone();
        let header = match rx.receive(&packet) {
            Received::Rtp { header, .. } => header,
            other => panic!("unexpected {other:?}"),
        };
        let outcome = rx.process_rtp(&header, &mut packet, Some((0, 0)), &tracker, &mut second);
        assert_eq!(outcome.user_id, Some(1));
        assert_eq!(packet, before);
    }
    assert_eq!(rx.stats.dave_decrypt_fail_ready, 4);
    assert!(second.dave_ready());
}

#[test]
fn unencrypted_frames_pass_during_a_transition() {
    let (_, mut second, _) = group_of_two();
    let plain_frames = [vec![], vec![1u8, 2, 3], vec![9u8; 40], sealed_end(&[])[..10].to_vec()];
    for frame in &plain_frames {
        assert!(second.decrypt_opus_for_user(1, frame).is_none());
    }
    second.on_prepare_transition(prepare_transition(2, 1));
    for frame in &plain_frames {
        assert_eq!(second.decrypt_opus_for_user(1, frame).as_ref(), Some(frame));
        assert!(second.decrypt_opus_for_user(9, frame).is_none());
    }
    let (_, mut second, _) = group_of_two();
    second.on_invalid_commit_welcome(DaveInvalidCommitWelcome { transition_id: 1 });
    assert_eq!(second.decrypt_opus_for_user(1, &[5, 6]), Some(vec![5, 6]));
}

#[test]
fn each_frame_is_sealed_anew() {
    let (mut first, mut second, _) = group_of_two();
    let frame = [1u8, 2, 3, 4];
    let one = first.encrypt_opus_for_self(&frame).expect("a sealed frame");
    let two = first.encrypt_opus_for_self(&frame).expect("a sealed frame");
    assert_ne!(one, two);
    assert_eq!(second.decrypt_opus_for_user(1, &one), Some(frame.to_vec()));
    assert_eq!(second.decrypt_opus_for_user(1, &two), Some(frame.to_vec()));
}

#[test]
fn silence_is_not_encrypted() {
    let (mut first, mut second, _) = group_of_two();
    let silence = [0xF8u8, 0xFF, 0xFE];
    assert_eq!(first.encrypt_opus_for_self(&silence), Some(silence.to_vec()));
    assert_eq!(second.decrypt_opus_for_user(1, &silence), Some(silence.to_vec()));
}

#[test]
fn passthrough_is_open_during_a_transition() {
    let (_, mut second, _) = group_of_two();
    let can_pass = |state: &DaveState| {
        state.session.as_ref().expect("a session").can_passthrough(1)
    };
    assert!(!can_pass(&second));
    second.on_prepare_transition(prepare_transition(2, 1));
    assert!(can_pass(&second));
    second.on_execute_transition(DaveExecuteTransition { transition_id: 1 });
    assert!(can_pass(&second));
    assert!(second.awaiting_transition_execute);
    second.on_prepare_epoch(prepare_epoch(3, 1, 2), 2, CHANNEL);
    assert!(second.dave_ready());
    assert!(can_pass(&second));
}

#[test]
fn a_ready_session_refuses_another_external_sender_and_welcome() {
    let (mut first, _, gateway) = group_of_two();
    first.on_binary_packet(&packet(25, gateway.external_sender()));
    assert_eq!(status(&first), SessionStatus::ACTIVE);
    assert!(first.dave_ready());
    first.on_binary_packet(&packet(30, encode_transition_payload(1, &[1])));
    assert_eq!(json_report(first.take_pending_outbound()), (31, 1));
    assert!(first.dave_ready());
}

#[test]
fn a_member_is_removed() {
    let (mut first, mut second, gateway) = group_of_two();
    let proposals = Gateway::proposals(&[gateway.remove(1, 1)]);
    first.on_binary_packet(&packet(27, proposals));
    let commit = match first.take_pending_outbound() {
        Some(DaveOutboundMessage::Binary { opcode: 28, payload }) => payload,
        other => panic!("unexpected {other:?}"),
    };
    assert_eq!(commit_length(&commit), commit.len());
    assert_eq!(status(&first), SessionStatus::AWAITING_RESPONSE);
    first.on_binary_packet(&packet(29, encode_transition_payload(1, &commit)));
    assert_eq!(json_report(first.take_pending_outbound()), (23, 1));
    let sealed = second.encrypt_opus_for_self(&[1, 2, 3, 4]).expect("a sealed frame");
    assert!(first.decrypt_opus_for_user(2, &sealed).is_none());
}

#[test]
fn revoked_proposals_end_the_wait_for_an_answer() {
    let gateway = Gateway::new();
    let (mut first, _) = member(1, &gateway);
    let nothing = VLBytes::new(Vec::new()).tls_serialize_detached().expect("a vector");
    first.on_binary_packet(&packet(27, encode_proposals_payload(1, &nothing)));
    assert_eq!(status(&first), SessionStatus::PENDING);
    assert!(first.take_pending_outbound().is_none());
}

#[test]
fn the_receive_task_decrypts_what_a_member_sent() {
    let (mut first, mut second, _) = group_of_two();
    let config = RxConfig { should_decrypt: true, decode_channels: 2, decode_sample_rate: 48_000 };
    let mut rx = UdpRx::new(4, 0, config, 0);
    let mut tracker = SsrcTracker::default();
    tracker.announce(1, 77);
    let frame = vec![9u8, 8, 7, 6, 5];
    let sealed = first.encrypt_opus_for_self(&frame).expect("a sealed frame");
    let mut packet = vec![0x80u8, 0x78, 0, 1, 0, 0, 0, 2, 0, 0, 0, 77, 0xAA, 0xBB];
    packet.extend_from_slice(&sealed);
    packet.push(0xCC);
    let header = match rx.receive(&packet) {
        Received::Rtp { header, decrypt: true } => header,
        other => panic!("unexpected {other:?}"),
    };
    let outcome = rx.process_rtp(&header, &mut packet, Some((2, 1)), &tracker, &mut second);
    assert_eq!(outcome.user_id, Some(1));
    let tail = sealed.len() + 1 - frame.len();
    assert_eq!(outcome.body, RtpBody { start: 2, tail, decrypted: true });
    assert_eq!(packet[14..19], frame[..]);
    assert_eq!(packet[..14], [0x80, 0x78, 0, 1, 0, 0, 0, 2, 0, 0, 0, 77, 0xAA, 0xBB]);
    assert_eq!(packet[packet.len() - 1], 0xCC);
    assert_eq!(rx.stats.dave_decrypt_success, 1);

    let mut garbage = vec![0x80u8, 0x78, 0, 1, 0, 0, 0, 2, 0, 0, 0, 77, 1, 2, 3];
    let header = match rx.receive(&garbage) {
        Received::Rtp { header, .. } => header,
        other => panic!("unexpected {other:?}"),
    };
    rx.process_rtp(&header, &mut garbage, Some((0, 0)), &tracker, &mut second);
    assert_eq!(rx.stats.dave_decrypt_fail_ready, 1);
}
