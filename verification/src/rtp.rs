//! What arrives on the voice socket: RTP and RTCP packets, told apart.
use discortp::pnet::packet::PrimitiveValues;
use discortp::Packet;
use vstd::prelude::*;

verus! {

/// The RTP version that a voice server speaks.
pub const RTP_VERSION: u8 = 2;

/// The RTP payload type of Opus audio from a voice server.
pub const RTP_PROFILE_TYPE: u8 = 120;

/// The bytes of an RTP header before any list of contributing sources.
pub const RTP_HEADER_LEN: usize = 12;

/// What is read of the header of an RTP packet.
#[derive(Clone, Copy, Debug, PartialEq, Eq, Structural)]
pub struct RtpHeader {
    pub version: u8,
    pub payload_type: u8,
    pub ssrc: u32,
    /// The length of the payload, which ends with the packet.
    pub payload_len: usize,
}

/// What a packet is.
#[derive(Clone, Copy, Debug, PartialEq, Eq, Structural)]
pub enum Demuxed {
    Rtp(RtpHeader),
    Rtcp,
    FailedParse,
    TooSmall,
}

/// Whether the second byte of a packet is the type of an RTCP message.
pub open spec fn is_rtcp_type(packet_type: u8) -> bool {
    packet_type == 194 || packet_type == 195 || 200 <= packet_type <= 213
}

/// The number that four bytes hold, most significant first.
pub open spec fn from_be32(b: Seq<u8>) -> u32
    recommends
        b.len() == 4,
{
    (b[0] * 0x100_0000 + b[1] * 0x1_0000 + b[2] * 0x100 + b[3]) as u32
}

/// Where the payload of an RTP packet starts: after the fixed header, and after
/// as many bytes as the low half of its first byte says.
pub open spec fn payload_start(p: Seq<u8>) -> int {
    RTP_HEADER_LEN + p[0] % 16
}

/// The header of an RTP packet.
pub open spec fn rtp_header(p: Seq<u8>) -> RtpHeader {
    RtpHeader {
        version: p[0] / 64,
        payload_type: p[1] % 128,
        ssrc: from_be32(p.subrange(8, 12)),
        payload_len: if p.len() > payload_start(p) {
            (p.len() - payload_start(p)) as usize
        } else {
            0
        },
    }
}

/// What a packet is. The second byte tells RTCP from RTP; sender and receiver
/// reports have a header of eight bytes, and RTP packets one of twelve.
pub open spec fn demuxed(p: Seq<u8>) -> Demuxed {
    if p.len() < 2 {
        Demuxed::TooSmall
    } else if is_rtcp_type(p[1]) {
        if (p[1] == 200 || p[1] == 201) && p.len() < 8 {
            Demuxed::FailedParse
        } else {
            Demuxed::Rtcp
        }
    } else if p.len() < RTP_HEADER_LEN {
        Demuxed::FailedParse
    } else {
        Demuxed::Rtp(rtp_header(p))
    }
}

/// Calls `discortp::demux::demux`, and the accessors of the RTP packet that it
/// may give: the packet's kind, and the header's fields.
#[verifier::external_body]
pub(crate) fn demux(packet: &[u8]) -> (kind: Demuxed)
    ensures
        kind == demuxed(packet@),
{
    match discortp::demux::demux(packet) {
        discortp::demux::Demuxed::Rtp(rtp) => Demuxed::Rtp(
            RtpHeader {
                version: rtp.get_version(),
                payload_type: rtp.get_payload_type().to_primitive_values().0,
                ssrc: rtp.get_ssrc(),
                payload_len: rtp.payload().len(),
            },
        ),
        discortp::demux::Demuxed::Rtcp(_) => Demuxed::Rtcp,
        discortp::demux::Demuxed::FailedParse(_) => Demuxed::FailedParse,
        discortp::demux::Demuxed::TooSmall => Demuxed::TooSmall,
    }
}

/// Whether an RTP packet is one that a voice server may send.
pub fn rtp_valid(header: &RtpHeader) -> (valid: bool)
    ensures
        valid == (header.version == RTP_VERSION && header.payload_type == RTP_PROFILE_TYPE),
{
    header.version == RTP_VERSION && header.payload_type == RTP_PROFILE_TYPE
}

/// The payload of an RTP packet lies within it, behind the header.
pub proof fn law_payload_within_packet(p: Seq<u8>)
    requires
        p.len() <= usize::MAX,
        demuxed(p) is Rtp,
    ensures
        demuxed(p)->Rtp_0.payload_len + RTP_HEADER_LEN <= p.len(),
{
}

/// What a packet is read as depends on no byte behind its header: changing the
/// payload, as decryption in place does, changes nothing.
pub proof fn law_header_decides(p: Seq<u8>, q: Seq<u8>)
    requires
        p.len() == q.len(),
        forall|i: int| 0 <= i < RTP_HEADER_LEN && i < p.len() ==> p[i] == q[i],
    ensures
        demuxed(p) == demuxed(q),
{
    if p.len() >= RTP_HEADER_LEN {
        assert(p.subrange(8, 12) =~= q.subrange(8, 12));
    }
}

/// What a packet is, by its bytes, and what an RTP header says. The second byte
/// tells RTCP from RTP: 194, 195 and 200 to 213 are RTCP. Sender and receiver
/// reports take eight bytes at least, and RTP packets twelve.
pub proof fn law_packet_told_apart(p: Seq<u8>)
    requires
        p.len() <= usize::MAX,
    ensures
        demuxed(p) is TooSmall <==> p.len() < 2,
        demuxed(p) is Rtcp <==> p.len() >= 2 && (p[1] == 194 || p[1] == 195 || 202 <= p[1] <= 213
            || (200 <= p[1] <= 201 && p.len() >= 8)),
        demuxed(p) is Rtp <==> p.len() >= 12 && p[1] != 194 && p[1] != 195 && (p[1] < 200 || p[1]
            > 213),
        demuxed(p) matches Demuxed::Rtp(header) ==> {
            &&& header.version * 64 <= p[0] < (header.version + 1) * 64
            &&& header.payload_type == p[1] || header.payload_type + 128 == p[1]
            &&& header.payload_type < 128
            &&& header.ssrc == p[8] * 0x100_0000 + p[9] * 0x1_0000 + p[10] * 0x100 + p[11]
            &&& header.payload_len == if p.len() > 12 + p[0] % 16 {
                p.len() - 12 - p[0] % 16
            } else {
                0
            }
        },
{
    if p.len() >= 12 {
        assert(p.subrange(8, 12) =~= seq![p[8], p[9], p[10], p[11]]);
    }
}

} // verus!
