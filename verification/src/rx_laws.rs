//! What holds of the receive task as a whole.
use crate::rtp::{demuxed, law_header_decides};
use crate::session::session_of;
use crate::ssrc::TrackerModel;
use crate::udp_rx::{
    opening_step, fits, has_left, is_silent, kept_decoders, opened_body, opened_packet, sealed_body,
    speaks, stats_opened, stats_received, DecoderLife, Polled, RtpBody, UdpRxModel, UdpRxStats,
    DISCONNECT_GRACE,
};
use crate::ws_dave::DaveModel;
use vstd::prelude::*;

verus! {

/// Whether every packet that was counted was counted as one kind of packet.
pub open spec fn accounted(s: UdpRxStats) -> bool {
    s.udp_packets == s.rtp_packets + s.rtcp_packets + s.demux_fail_parse + s.demux_too_small
}

/// Every packet that arrives is counted as one kind of packet, until the
/// counter of packets is full; what DAVE makes of it is counted apart.
pub proof fn law_packets_accounted(
    s: UdpRxStats,
    packet: Seq<u8>,
    payload_len: nat,
    start: usize,
    ready: bool,
    plain: Option<Seq<u8>>,
)
    requires
        accounted(s),
        s.udp_packets < u64::MAX,
    ensures
        accounted(UdpRxStats::zero()),
        accounted(stats_received(s, packet)),
        stats_received(s, packet).udp_packets == s.udp_packets + 1,
        accounted(stats_opened(s, payload_len, start, ready, plain)),
{
}

/// Where a plaintext fits, it is what the packet then holds between the start
/// and the tail of the body, and nothing else of the packet is changed.
pub proof fn law_plaintext_in_place(
    packet: Seq<u8>,
    payload_len: nat,
    body: RtpBody,
    plain: Seq<u8>,
)
    requires
        payload_len <= packet.len() <= usize::MAX,
        fits(payload_len, body.start, plain),
    ensures
        ({
            let opened = opened_packet(packet, payload_len, body.start, Some(plain));
            let after = opened_body(body, payload_len, Some(plain));
            let at = packet.len() - payload_len + body.start;
            &&& after.decrypted
            &&& after.start + plain.len() + after.tail == payload_len
            &&& opened.len() == packet.len()
            &&& sealed_body(opened, payload_len, after) == if payload_len > 0 {
                Some(plain)
            } else {
                None
            }
            &&& opened.subrange(0, at) == packet.subrange(0, at)
            &&& opened.subrange(at + plain.len(), packet.len() as int) == packet.subrange(
                at + plain.len(),
                packet.len() as int,
            )
        }),
{
    let opened = opened_packet(packet, payload_len, body.start, Some(plain));
    let at = packet.len() - payload_len + body.start;
    assert(opened.subrange(at, at + plain.len()) =~= plain);
    assert(opened.subrange(0, at) =~= packet.subrange(0, at));
    assert(opened.subrange(at + plain.len(), packet.len() as int) =~= packet.subrange(
        at + plain.len(),
        packet.len() as int,
    ));
}

/// Whatever DAVE makes of an RTP packet, it is read as the same packet after.
pub proof fn law_packet_stays_what_it_is(
    packet: Seq<u8>,
    start: usize,
    plain: Option<Seq<u8>>,
)
    requires
        packet.len() <= usize::MAX,
        demuxed(packet) is Rtp,
    ensures
        ({
            let payload_len = demuxed(packet)->Rtp_0.payload_len as nat;
            demuxed(opened_packet(packet, payload_len, start, plain)) == demuxed(packet)
        }),
{
    let payload_len = demuxed(packet)->Rtp_0.payload_len as nat;
    law_header_decides(packet, opened_packet(packet, payload_len, start, plain));
}

/// While DAVE is not ready, packets are passed on as they are.
pub proof fn law_untouched_until_ready(
    m: UdpRxModel,
    packet: Seq<u8>,
    payload_len: nat,
    body: RtpBody,
    user_id: u64,
    sealed: Seq<u8>,
    dave: DaveModel,
    f: UdpRxModel,
    opened: Seq<u8>,
    dave_after: DaveModel,
    body_after: RtpBody,
)
    requires
        !dave.ready(),
        opening_step(
            m,
            packet,
            payload_len,
            body,
            user_id,
            sealed,
            dave,
            f,
            opened,
            dave_after,
            body_after,
        ),
    ensures
        opened == packet,
        body_after == body,
        dave_after == dave,
        f == (UdpRxModel {
            stats: stats_opened(m.stats, payload_len, body.start, false, None),
            ..m
        }),
{
}

/// Audio of someone outside the group is passed on as it is.
pub proof fn law_strangers_untouched(
    m: UdpRxModel,
    packet: Seq<u8>,
    payload_len: nat,
    body: RtpBody,
    user_id: u64,
    sealed: Seq<u8>,
    dave: DaveModel,
    f: UdpRxModel,
    opened: Seq<u8>,
    dave_after: DaveModel,
    body_after: RtpBody,
)
    requires
        dave.ready(),
        !session_of(dave.session->0).passthrough.contains_key(user_id),
        opening_step(
            m,
            packet,
            payload_len,
            body,
            user_id,
            sealed,
            dave,
            f,
            opened,
            dave_after,
            body_after,
        ),
    ensures
        opened == packet,
        body_after == body,
        f == (UdpRxModel {
            stats: stats_opened(m.stats, payload_len, body.start, true, None),
            ..m
        }),
{
}

/// Decrypting audio never makes a DAVE session ready, or unready.
pub proof fn law_decrypting_keeps_readiness(
    m: UdpRxModel,
    packet: Seq<u8>,
    payload_len: nat,
    body: RtpBody,
    user_id: u64,
    sealed: Seq<u8>,
    dave: DaveModel,
    f: UdpRxModel,
    opened: Seq<u8>,
    dave_after: DaveModel,
    body_after: RtpBody,
)
    requires
        opening_step(
            m,
            packet,
            payload_len,
            body,
            user_id,
            sealed,
            dave,
            f,
            opened,
            dave_after,
            body_after,
        ),
    ensures
        dave_after.ready() == dave.ready(),
        dave_after == (DaveModel { session: dave_after.session, ..dave }),
{
}

/// At a voice tick nobody both speaks and is silent, and everyone does one of
/// the two but those who have left and have nothing more to say.
pub proof fn law_speaking_or_silent(
    decoders: Map<u32, DecoderLife>,
    polled: Seq<(u32, Polled)>,
    i: int,
)
    requires
        0 <= i < polled.len(),
        forall|j: int, k: int|
            0 <= j < polled.len() && 0 <= k < polled.len() && (#[trigger] polled[j]).0 == (
            #[trigger] polled[k]).0 ==> j == k,
    ensures
        !(speaks(polled, polled[i].0) && is_silent(decoders, polled, polled[i].0)),
        speaks(polled, polled[i].0) || is_silent(decoders, polled, polled[i].0) || (
        polled[i].1 is Nothing && has_left(decoders, polled[i].0)),
{
    assert(polled.contains(polled[i]));
    assert forall|p: Polled| polled.contains((polled[i].0, p)) implies p == polled[i].1 by {
        let j = choose|j: int| 0 <= j < polled.len() && polled[j] == (polled[i].0, p);
        assert(polled[j].0 == polled[i].0);
    }
}

/// The decoder of a user who has left survives the cleanup that finds out, and
/// goes at the first one after the grace period, unless its SSRC comes back.
pub proof fn law_departed_decoder_lingers(
    decoders: Map<u32, DecoderLife>,
    left: Set<u32>,
    now: u64,
    later_left: Set<u32>,
    later: u64,
    ssrc: u32,
)
    requires
        decoders.contains_key(ssrc),
        left.contains(ssrc),
        !later_left.contains(ssrc),
        now + DISCONNECT_GRACE <= u64::MAX,
    ensures
        kept_decoders(decoders, left, now).contains_key(ssrc),
        has_left(kept_decoders(decoders, left, now), ssrc),
        kept_decoders(kept_decoders(decoders, left, now), later_left, later).contains_key(ssrc)
            <==> later < now + DISCONNECT_GRACE,
{
}

/// Without departures, a cleanup removes the decoders whose time is up, and
/// doing it again at once changes nothing.
pub proof fn law_cleanup_repeated(decoders: Map<u32, DecoderLife>, now: u64)
    ensures
        ({
            let kept = kept_decoders(decoders, Set::empty(), now);
            &&& forall|ssrc: u32| #[trigger]
                kept.contains_key(ssrc) <==> decoders.contains_key(ssrc)
                    && decoders[ssrc].prune_time > now
            &&& kept_decoders(kept, Set::empty(), now) == kept
        }),
{
    let kept = kept_decoders(decoders, Set::empty(), now);
    assert(kept_decoders(kept, Set::empty(), now) =~= kept);
}

/// After a cleanup, nobody who had left is taken for a sender.
pub proof fn law_departed_users_send_nothing(t: TrackerModel, ssrc: u32, user_id: u64)
    requires
        t.disconnected.contains(user_id),
    ensures
        ({
            let after = TrackerModel {
                ssrcs: t.ssrcs.remove_keys(t.disconnected),
                disconnected: Set::empty(),
            };
            !after.may_be_sender(ssrc, Some(user_id))
        }),
{
}

} // verus!
