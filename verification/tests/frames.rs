use dave_gateway::frames::{
    decode_proposals_payload, decode_transition_payload, encode_binary_gateway_packet,
    encode_client_binary_packet, encode_proposals_payload, encode_transition_payload,
    parse_binary_gateway_packet, DaveBinaryOpcode,
};

#[test]
fn client_packet_encoding_for_key_package_and_commit_welcome_has_no_sequence() {
    let payload = [1u8, 2, 3, 4];
    let key_pkg = encode_client_binary_packet(0x1234, 26, &payload);
    assert_eq!(key_pkg.as_ref(), &[26, 1, 2, 3, 4]);

    let commit_welcome = encode_client_binary_packet(0x5678, 28, &payload);
    assert_eq!(commit_welcome.as_ref(), &[28, 1, 2, 3, 4]);
}

#[test]
fn gateway_packet_encoding_for_other_opcodes_keeps_sequence() {
    let payload = [9u8, 8, 7];
    let out = encode_client_binary_packet(0x0102, 29, &payload);
    assert_eq!(out.as_ref(), &[0x01, 0x02, 29, 9, 8, 7]);
}

#[test]
fn proposals_payload_roundtrip() {
    let proposals = [0xAAu8, 0xBB, 0xCC];
    let encoded = encode_proposals_payload(0, &proposals);
    let decoded = decode_proposals_payload(&encoded).expect("decode proposals payload");
    assert_eq!(decoded.0, 0);
    assert_eq!(decoded.1, proposals);
}

#[test]
fn transition_payload_roundtrip() {
    let body = [0xDEu8, 0xAD, 0xBE, 0xEF];
    let encoded = encode_transition_payload(0x1234, &body);
    let decoded = decode_transition_payload(&encoded).expect("decode transition payload");
    assert_eq!(decoded.0, 0x1234);
    assert_eq!(decoded.1, body);
}

#[test]
fn transition_decode_rejects_short_payload() {
    assert!(decode_transition_payload(&[]).is_none());
    assert!(decode_transition_payload(&[0x12]).is_none());
}

#[test]
fn opcodes_are_read_from_their_codes() {
    let expected = [
        (25, DaveBinaryOpcode::MlsExternalSender),
        (26, DaveBinaryOpcode::MlsKeyPackage),
        (27, DaveBinaryOpcode::MlsProposals),
        (28, DaveBinaryOpcode::MlsCommitWelcome),
        (29, DaveBinaryOpcode::MlsAnnounceCommitTransition),
        (30, DaveBinaryOpcode::MlsWelcome),
    ];
    for (code, opcode) in expected {
        assert_eq!(DaveBinaryOpcode::from_u8(code), Some(opcode));
    }
    assert_eq!(DaveBinaryOpcode::from_u8(24), None);
    assert_eq!(DaveBinaryOpcode::from_u8(31), None);
    assert_eq!(DaveBinaryOpcode::from_u8(0), None);
}

#[test]
fn frames_with_a_sequence_number_are_parsed() {
    let frame = encode_binary_gateway_packet(0x0102, 27, &[5, 6]);
    assert_eq!(frame.as_ref(), &[0x01, 0x02, 27, 5, 6]);
    let packet = parse_binary_gateway_packet(&frame).expect("a frame");
    assert_eq!(packet.sequence, Some(0x0102));
    assert_eq!(packet.opcode, 27);
    assert_eq!(packet.payload.as_ref(), &[5, 6]);
}

#[test]
fn frames_without_a_sequence_number_are_parsed() {
    let packet = parse_binary_gateway_packet(&[30, 7]).expect("a frame");
    assert_eq!(packet.sequence, None);
    assert_eq!(packet.opcode, 30);
    assert_eq!(packet.payload.as_ref(), &[7]);

    let bare = parse_binary_gateway_packet(&[25]).expect("a frame");
    assert_eq!(bare.sequence, None);
    assert_eq!(bare.opcode, 25);
    assert!(bare.payload.is_empty());
}

#[test]
fn frames_of_other_opcodes_are_parsed() {
    let packet = parse_binary_gateway_packet(&[0, 1, 200]).expect("a frame");
    assert_eq!(packet.sequence, Some(1));
    assert_eq!(packet.opcode, 200);
    assert!(packet.payload.is_empty());
}

#[test]
fn short_frames_are_refused() {
    assert!(parse_binary_gateway_packet(&[]).is_none());
    assert!(parse_binary_gateway_packet(&[1]).is_none());
    assert!(parse_binary_gateway_packet(&[1, 2]).is_none());
}

#[test]
fn a_sequence_number_like_an_opcode_is_taken_for_one() {
    let frame = encode_binary_gateway_packet(0x1900, 27, &[5]);
    let packet = parse_binary_gateway_packet(&frame).expect("a frame");
    assert_eq!(packet.sequence, None);
    assert_eq!(packet.opcode, 25);
    assert_eq!(packet.payload.as_ref(), &[0, 27, 5]);
}

#[test]
fn client_frames_read_back() {
    let sent = encode_client_binary_packet(7, 28, &[1, 2]);
    let packet = parse_binary_gateway_packet(&sent).expect("a frame");
    assert_eq!(packet.sequence, None);
    assert_eq!(packet.opcode, 28);
    assert_eq!(packet.payload.as_ref(), &[1, 2]);
}

#[test]
fn empty_proposals_payload_is_refused() {
    assert!(decode_proposals_payload(&[]).is_none());
    let decoded = decode_proposals_payload(&[1]).expect("an operation type");
    assert_eq!(decoded.0, 1);
    assert!(decoded.1.is_empty());
}

#[test]
fn transition_payload_is_big_endian() {
    let encoded = encode_transition_payload(0xABCD, &[]);
    assert_eq!(encoded.as_ref(), &[0xAB, 0xCD]);
    let decoded = decode_transition_payload(&[0x01, 0x00, 9]).expect("a transition");
    assert_eq!(decoded.0, 256);
    assert_eq!(decoded.1, [9]);
}
