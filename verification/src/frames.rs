//! Binary frames of the voice gateway: encoding, parsing and the payloads of
//! the DAVE opcodes.
use crate::octets::{octets, octets_from_slice, octets_from_vec};
use bytes::Bytes;
use vstd::prelude::*;
use vstd::slice::slice_subrange;

verus! {

/// The binary opcodes of DAVE's MLS exchange.
#[derive(Clone, Copy, Debug, PartialEq, Eq, Structural)]
pub enum DaveBinaryOpcode {
    MlsExternalSender,
    MlsKeyPackage,
    MlsProposals,
    MlsCommitWelcome,
    MlsAnnounceCommitTransition,
    MlsWelcome,
}

impl DaveBinaryOpcode {
    /// The byte that stands for this opcode on the wire.
    pub open spec fn code(self) -> u8 {
        match self {
            DaveBinaryOpcode::MlsExternalSender => 25,
            DaveBinaryOpcode::MlsKeyPackage => 26,
            DaveBinaryOpcode::MlsProposals => 27,
            DaveBinaryOpcode::MlsCommitWelcome => 28,
            DaveBinaryOpcode::MlsAnnounceCommitTransition => 29,
            DaveBinaryOpcode::MlsWelcome => 30,
        }
    }

    /// Reads an opcode byte; bytes outside the DAVE range give `None`.
    pub fn from_u8(value: u8) -> (opcode: Option<Self>)
        ensures
            opcode is Some <==> is_dave_code(value),
            opcode matches Some(op) ==> op.code() == value,
    {
        match value {
            25 => Some(DaveBinaryOpcode::MlsExternalSender),
            26 => Some(DaveBinaryOpcode::MlsKeyPackage),
            27 => Some(DaveBinaryOpcode::MlsProposals),
            28 => Some(DaveBinaryOpcode::MlsCommitWelcome),
            29 => Some(DaveBinaryOpcode::MlsAnnounceCommitTransition),
            30 => Some(DaveBinaryOpcode::MlsWelcome),
            _ => None,
        }
    }
}

/// Whether a byte is the code of a DAVE binary opcode.
pub open spec fn is_dave_code(value: u8) -> bool {
    25 <= value <= 30
}

/// A binary frame of the voice gateway, taken apart.
#[derive(Clone, Debug)]
pub struct BinaryGatewayPacket {
    pub sequence: Option<u16>,
    pub opcode: u8,
    pub payload: Bytes,
}

/// What a binary frame says, with its payload as a sequence of bytes.
pub struct FrameModel {
    pub sequence: Option<u16>,
    pub opcode: u8,
    pub payload: Seq<u8>,
}

impl View for BinaryGatewayPacket {
    type V = FrameModel;

    open spec fn view(&self) -> FrameModel {
        FrameModel {
            sequence: self.sequence,
            opcode: self.opcode,
            payload: octets(self.payload),
        }
    }
}

/// A 16-bit number as two bytes, the most significant first.
pub open spec fn be16(value: u16) -> Seq<u8> {
    seq![(value / 256) as u8, (value % 256) as u8]
}

/// The 16-bit number that two bytes stand for, the most significant first.
pub open spec fn from_be16(high: u8, low: u8) -> u16 {
    (high * 256 + low) as u16
}

/// The frame that carries `payload` under `opcode` with a sequence number:
/// sequence (big-endian), opcode, payload.
pub open spec fn gateway_frame(sequence: u16, opcode: u8, payload: Seq<u8>) -> Seq<u8> {
    be16(sequence) + seq![opcode] + payload
}

/// Whether a client sends frames of this opcode without a sequence number.
pub open spec fn sent_without_sequence(opcode: u8) -> bool {
    opcode == DaveBinaryOpcode::MlsKeyPackage.code() || opcode
        == DaveBinaryOpcode::MlsCommitWelcome.code()
}

/// The frame that a client sends to carry `payload` under `opcode`.
pub open spec fn client_frame(sequence: u16, opcode: u8, payload: Seq<u8>) -> Seq<u8> {
    if sent_without_sequence(opcode) {
        seq![opcode] + payload
    } else {
        gateway_frame(sequence, opcode, payload)
    }
}

/// What a received frame says. A frame that begins with a DAVE opcode carries
/// no sequence number; any other begins with one.
pub open spec fn parsed_frame(frame: Seq<u8>) -> Option<FrameModel> {
    if frame.len() > 0 && is_dave_code(frame[0]) {
        Some(FrameModel { sequence: None, opcode: frame[0], payload: frame.skip(1) })
    } else if frame.len() >= 3 {
        Some(
            FrameModel {
                sequence: Some(from_be16(frame[0], frame[1])),
                opcode: frame[2],
                payload: frame.skip(3),
            },
        )
    } else {
        None
    }
}

/// The payload of a proposals frame.
pub open spec fn proposals_payload(operation_type: u8, proposals: Seq<u8>) -> Seq<u8> {
    seq![operation_type] + proposals
}

/// The operation type and the proposals that a proposals payload holds.
pub open spec fn parsed_proposals(payload: Seq<u8>) -> Option<(u8, Seq<u8>)> {
    if payload.len() == 0 {
        None
    } else {
        Some((payload[0], payload.skip(1)))
    }
}

/// The payload of a frame that announces a commit or a welcome.
pub open spec fn transition_payload(transition_id: u16, body: Seq<u8>) -> Seq<u8> {
    be16(transition_id) + body
}

/// The transition id and the body that a transition payload holds.
pub open spec fn parsed_transition(payload: Seq<u8>) -> Option<(u16, Seq<u8>)> {
    if payload.len() < 2 {
        None
    } else {
        Some((from_be16(payload[0], payload[1]), payload.skip(2)))
    }
}

/// Appends a 16-bit number to `out`, the most significant byte first.
fn push_be16(out: &mut Vec<u8>, value: u16)
    ensures
        final(out)@ == old(out)@ + be16(value),
{
    out.push((value / 256) as u8);
    out.push((value % 256) as u8);
    assert(out@ =~= old(out)@ + be16(value));
}

/// Reads a 16-bit number from two bytes, the most significant first.
fn read_be16(high: u8, low: u8) -> (value: u16)
    ensures
        value == from_be16(high, low),
{
    high as u16 * 256 + low as u16
}

/// Voice gateway DAVE/MLS binary frame format:
/// - u16 sequence (big-endian)
/// - u8 opcode
/// - remaining bytes = payload
pub fn encode_binary_gateway_packet(sequence: u16, opcode: u8, payload: &[u8]) -> (frame: Bytes)
    ensures
        octets(frame) == gateway_frame(sequence, opcode, payload@),
{
    let mut out: Vec<u8> = Vec::new();
    push_be16(&mut out, sequence);
    out.push(opcode);
    out.extend_from_slice(payload);
    assert(out@ =~= gateway_frame(sequence, opcode, payload@));
    octets_from_vec(out)
}

/// Client to gateway binary framing differs by opcode:
/// - 26 (key package) and 28 (commit/welcome) are sent without sequence prefix;
/// - every other opcode keeps the sequence prefix.
pub fn encode_client_binary_packet(sequence: u16, opcode: u8, payload: &[u8]) -> (frame: Bytes)
    ensures
        octets(frame) == client_frame(sequence, opcode, payload@),
{
    if opcode == 26 || opcode == 28 {
        let mut out: Vec<u8> = Vec::new();
        out.push(opcode);
        out.extend_from_slice(payload);
        assert(out@ =~= client_frame(sequence, opcode, payload@));
        octets_from_vec(out)
    } else {
        encode_binary_gateway_packet(sequence, opcode, payload)
    }
}

/// Prefixes proposals with their operation type.
pub fn encode_proposals_payload(operation_type: u8, proposals: &[u8]) -> (payload: Bytes)
    ensures
        octets(payload) == proposals_payload(operation_type, proposals@),
{
    let mut out: Vec<u8> = Vec::new();
    out.push(operation_type);
    out.extend_from_slice(proposals);
    assert(out@ =~= proposals_payload(operation_type, proposals@));
    octets_from_vec(out)
}

/// Splits a proposals payload into operation type and proposals; an empty
/// payload has neither.
pub fn decode_proposals_payload(payload: &[u8]) -> (decoded: Option<(u8, &[u8])>)
    ensures
        match decoded {
            Some((operation_type, proposals)) => parsed_proposals(payload@) == Some(
                (operation_type, proposals@),
            ),
            None => parsed_proposals(payload@) is None,
        },
{
    if payload.len() == 0 {
        None
    } else {
        Some((payload[0], slice_subrange(payload, 1, payload.len())))
    }
}

/// Prefixes a commit or a welcome with its transition id (big-endian).
pub fn encode_transition_payload(transition_id: u16, body: &[u8]) -> (payload: Bytes)
    ensures
        octets(payload) == transition_payload(transition_id, body@),
{
    let mut out: Vec<u8> = Vec::new();
    push_be16(&mut out, transition_id);
    out.extend_from_slice(body);
    assert(out@ =~= transition_payload(transition_id, body@));
    octets_from_vec(out)
}

/// Splits a transition payload into transition id and body; payloads shorter
/// than the id are rejected.
pub fn decode_transition_payload(payload: &[u8]) -> (decoded: Option<(u16, &[u8])>)
    ensures
        match decoded {
            Some((transition_id, body)) => parsed_transition(payload@) == Some(
                (transition_id, body@),
            ),
            None => parsed_transition(payload@) is None,
        },
{
    if payload.len() < 2 {
        None
    } else {
        let transition_id = read_be16(payload[0], payload[1]);
        Some((transition_id, slice_subrange(payload, 2, payload.len())))
    }
}

/// Takes a received frame apart. Two variants are seen on the wire:
/// 1. opcode, payload;
/// 2. u16 sequence, opcode, payload.
pub fn parse_binary_gateway_packet(buf: &[u8]) -> (packet: Option<BinaryGatewayPacket>)
    ensures
        match packet {
            Some(p) => parsed_frame(buf@) == Some(p@),
            None => parsed_frame(buf@) is None,
        },
{
    if buf.len() == 0 {
        return None;
    }
    if matches!(buf[0], 25 | 26 | 27 | 28 | 29 | 30) {
        return Some(
            BinaryGatewayPacket {
                sequence: None,
                opcode: buf[0],
                payload: octets_from_slice(slice_subrange(buf, 1, buf.len())),
            },
        );
    }
    if buf.len() < 3 {
        return None;
    }
    Some(
        BinaryGatewayPacket {
            sequence: Some(read_be16(buf[0], buf[1])),
            opcode: buf[2],
            payload: octets_from_slice(slice_subrange(buf, 3, buf.len())),
        },
    )
}

/// The opcodes and the codes 25 to 30 stand for one another: every opcode has
/// a code in that range, and no two opcodes share one.
pub proof fn law_opcode_codes(a: DaveBinaryOpcode, b: DaveBinaryOpcode)
    ensures
        is_dave_code(a.code()),
        a.code() == b.code() ==> a == b,
{
}

/// Reading back a big-endian number gives the number.
pub proof fn law_be16_roundtrip(value: u16)
    ensures
        from_be16(be16(value)[0], be16(value)[1]) == value,
{
}

/// A sequenced frame is parsed back into its sequence number, opcode and
/// payload. Excepted are the sequence numbers whose first byte reads as a DAVE
/// opcode: such a frame is taken for one without a sequence number.
pub proof fn law_gateway_frame_roundtrip(sequence: u16, opcode: u8, payload: Seq<u8>)
    requires
        !is_dave_code((sequence / 256) as u8),
    ensures
        parsed_frame(gateway_frame(sequence, opcode, payload)) == Some(
            FrameModel { sequence: Some(sequence), opcode, payload },
        ),
{
    let frame = gateway_frame(sequence, opcode, payload);
    law_be16_roundtrip(sequence);
    assert(frame.skip(3) =~= payload);
}

/// A key package or commit/welcome frame of a client is parsed back into its
/// opcode and payload, whatever the sequence number was.
pub proof fn law_client_frame_without_sequence(sequence: u16, opcode: u8, payload: Seq<u8>)
    requires
        sent_without_sequence(opcode),
    ensures
        client_frame(sequence, opcode, payload) == seq![opcode] + payload,
        parsed_frame(client_frame(sequence, opcode, payload)) == Some(
            FrameModel { sequence: None, opcode, payload },
        ),
{
    assert(client_frame(sequence, opcode, payload).skip(1) =~= payload);
}

/// A client's frame of any other opcode keeps its sequence number.
pub proof fn law_client_frame_with_sequence(sequence: u16, opcode: u8, payload: Seq<u8>)
    requires
        !sent_without_sequence(opcode),
        !is_dave_code((sequence / 256) as u8),
    ensures
        parsed_frame(client_frame(sequence, opcode, payload)) == Some(
            FrameModel { sequence: Some(sequence), opcode, payload },
        ),
{
    law_gateway_frame_roundtrip(sequence, opcode, payload);
}

/// Decoding an encoded proposals payload gives back what went in.
pub proof fn law_proposals_roundtrip(operation_type: u8, proposals: Seq<u8>)
    ensures
        parsed_proposals(proposals_payload(operation_type, proposals)) == Some(
            (operation_type, proposals),
        ),
{
    assert(proposals_payload(operation_type, proposals).skip(1) =~= proposals);
}

/// Encoding a decoded proposals payload gives back the payload.
pub proof fn law_proposals_payload_unique(payload: Seq<u8>)
    requires
        payload.len() > 0,
    ensures
        parsed_proposals(payload) matches Some((operation_type, proposals)) && proposals_payload(
            operation_type,
            proposals,
        ) == payload,
{
    assert(proposals_payload(payload[0], payload.skip(1)) =~= payload);
}

/// Decoding an encoded transition payload gives back what went in.
pub proof fn law_transition_roundtrip(transition_id: u16, body: Seq<u8>)
    ensures
        parsed_transition(transition_payload(transition_id, body)) == Some((transition_id, body)),
{
    law_be16_roundtrip(transition_id);
    assert(transition_payload(transition_id, body).skip(2) =~= body);
}

/// Encoding a decoded transition payload gives back the payload.
pub proof fn law_transition_payload_unique(payload: Seq<u8>)
    requires
        payload.len() >= 2,
    ensures
        parsed_transition(payload) matches Some((transition_id, body)) && transition_payload(
            transition_id,
            body,
        ) == payload,
{
    assert(transition_payload(from_be16(payload[0], payload[1]), payload.skip(2)) =~= payload);
}

/// Each opcode stands on the wire for the number that the protocol gives it, and
/// these six numbers are the only ones.
pub proof fn law_opcode_numbers(value: u8)
    ensures
        DaveBinaryOpcode::MlsExternalSender.code() == 25,
        DaveBinaryOpcode::MlsKeyPackage.code() == 26,
        DaveBinaryOpcode::MlsProposals.code() == 27,
        DaveBinaryOpcode::MlsCommitWelcome.code() == 28,
        DaveBinaryOpcode::MlsAnnounceCommitTransition.code() == 29,
        DaveBinaryOpcode::MlsWelcome.code() == 30,
        is_dave_code(value) <==> 25 <= value <= 30,
        is_dave_code(value) <==> (exists|opcode: DaveBinaryOpcode| #[trigger]
            opcode.code() == value),
{
    if is_dave_code(value) {
        let opcode = if value == 25 {
            DaveBinaryOpcode::MlsExternalSender
        } else if value == 26 {
            DaveBinaryOpcode::MlsKeyPackage
        } else if value == 27 {
            DaveBinaryOpcode::MlsProposals
        } else if value == 28 {
            DaveBinaryOpcode::MlsCommitWelcome
        } else if value == 29 {
            DaveBinaryOpcode::MlsAnnounceCommitTransition
        } else {
            DaveBinaryOpcode::MlsWelcome
        };
        assert(opcode.code() == value);
    }
}

/// A frame that begins with any of the six DAVE opcodes is read as a frame of
/// that opcode without a sequence number, whatever follows.
pub proof fn law_bare_frame_parsed(opcode: u8, payload: Seq<u8>)
    requires
        25 <= opcode <= 30,
    ensures
        parsed_frame(seq![opcode] + payload) == Some(
            FrameModel { sequence: None, opcode, payload },
        ),
{
    assert((seq![opcode] + payload).skip(1) =~= payload);
}

/// A frame that begins with any other byte is read as a sequence number of two
/// bytes, the more significant one first, an opcode and a payload, whatever they
/// are.
pub proof fn law_sequenced_frame_parsed(high: u8, low: u8, opcode: u8, payload: Seq<u8>)
    requires
        high < 25 || high > 30,
    ensures
        ({
            let parsed = parsed_frame(seq![high, low, opcode] + payload);
            &&& parsed is Some
            &&& parsed->0.sequence is Some
            &&& parsed->0.sequence->0 == high * 256 + low
            &&& parsed->0.opcode == opcode
            &&& parsed->0.payload == payload
        }),
{
    assert((seq![high, low, opcode] + payload).skip(3) =~= payload);
}

/// No other frame is read: an empty one, and one that is too short for its
/// sequence number and opcode.
pub proof fn law_frames_parsed_where_complete(frame: Seq<u8>)
    ensures
        parsed_frame(frame) is None <==> frame.len() == 0 || (frame.len() < 3 && (frame[0] < 25
            || frame[0] > 30)),
{
}

/// What is written of a sequenced frame: three bytes, which hold the sequence
/// number and the opcode, and behind them the payload.
pub proof fn law_gateway_frame_bytes(sequence: u16, opcode: u8, payload: Seq<u8>)
    ensures
        ({
            let frame = gateway_frame(sequence, opcode, payload);
            &&& frame.len() == 3 + payload.len()
            &&& frame[0] * 256 + frame[1] == sequence
            &&& frame[2] == opcode
            &&& frame.skip(3) == payload
        }),
{
    assert(gateway_frame(sequence, opcode, payload).skip(3) =~= payload);
}

/// What a client writes: a key package and a commit with its welcome begin with
/// their opcode, and every other frame with its sequence number.
pub proof fn law_client_frame_bytes(sequence: u16, opcode: u8, payload: Seq<u8>)
    ensures
        ({
            let frame = client_frame(sequence, opcode, payload);
            if opcode == 26 || opcode == 28 {
                frame.len() == 1 + payload.len() && frame[0] == opcode && frame.skip(1) == payload
            } else {
                &&& frame.len() == 3 + payload.len()
                &&& frame[0] * 256 + frame[1] == sequence
                &&& frame[2] == opcode
                &&& frame.skip(3) == payload
            }
        }),
{
    if opcode == 26 || opcode == 28 {
        assert(client_frame(sequence, opcode, payload).skip(1) =~= payload);
    } else {
        law_gateway_frame_bytes(sequence, opcode, payload);
    }
}

/// What is read of a proposals payload: its first byte, and all that follows. An
/// empty one is not read, and every other one is.
pub proof fn law_proposals_payload_bytes(payload: Seq<u8>, operation_type: u8, proposals: Seq<u8>)
    ensures
        parsed_proposals(payload) is None <==> payload.len() == 0,
        parsed_proposals(seq![operation_type] + proposals) == Some((operation_type, proposals)),
        proposals_payload(operation_type, proposals).len() == 1 + proposals.len(),
        proposals_payload(operation_type, proposals)[0] == operation_type,
        proposals_payload(operation_type, proposals).skip(1) == proposals,
{
    assert((seq![operation_type] + proposals).skip(1) =~= proposals);
    assert(proposals_payload(operation_type, proposals).skip(1) =~= proposals);
}

/// What is read of a transition payload: a number of two bytes, the more
/// significant one first, and all that follows. One of fewer than two bytes is
/// not read, and every other one is.
pub proof fn law_transition_payload_bytes(payload: Seq<u8>, high: u8, low: u8, body: Seq<u8>)
    ensures
        parsed_transition(payload) is None <==> payload.len() < 2,
        parsed_transition(seq![high, low] + body) matches Some((id, rest)) && id == high * 256
            + low && rest == body,
{
    assert((seq![high, low] + body).skip(2) =~= body);
}

/// What is written of a transition: two bytes, which hold its id, and the body.
pub proof fn law_transition_payload_written(transition_id: u16, body: Seq<u8>)
    ensures
        ({
            let payload = transition_payload(transition_id, body);
            &&& payload.len() == 2 + body.len()
            &&& payload[0] * 256 + payload[1] == transition_id
            &&& payload.skip(2) == body
        }),
{
    assert(transition_payload(transition_id, body).skip(2) =~= body);
}

/// A frame that was taken apart shows its sequence number, its opcode and the bytes
/// of its payload.
pub proof fn law_packet_shown(packet: BinaryGatewayPacket)
    ensures
        packet@.sequence == packet.sequence,
        packet@.opcode == packet.opcode,
        packet@.payload == octets(packet.payload),
{
}

} // verus!
