//! What the receive task makes of each packet and each tick, byte by byte and
//! counter by counter.
use crate::rtp::{demuxed, law_packet_told_apart};
use crate::session::{has_overlong_number, opened_frame, session_of};
use crate::ssrc::SsrcTracker;
use crate::udp_rx::{
    body_opened, counted, failures, has_left, is_silent, kept_decoders, opened_body, opened_packet,
    opening_step, received, report_due, sealed_body, speaks, stats_opened, stats_received,
    transport_body, DecoderLife, Polled, Received, RtpBody, UdpRx, UdpRxModel,
    UdpRxStats,
};
use crate::ws_dave::{opus_opened, DaveModel};
use vstd::prelude::*;

verus! {

/// A counter grows by what is counted, and stays full once it is.
pub proof fn law_counter_grows(counter: u64, n: nat)
    ensures
        counter + n <= u64::MAX ==> counted(counter, n) == counter + n,
        counter + n > u64::MAX ==> counted(counter, n) == u64::MAX,
{
}

/// What is to be done with a packet, by its bytes. Packets are handed on as RTP only
/// where they are of version 2 and of the payload type of Opus audio, with the
/// sender's SSRC and the length of what lies behind the header; and they are
/// decrypted exactly where the configuration asks for it.
pub proof fn law_packet_verdict(p: Seq<u8>, should_decrypt: bool)
    requires
        p.len() <= usize::MAX,
    ensures
        p.len() < 2 ==> received(p, should_decrypt) is TooSmall,
        p.len() >= 2 && (p[1] == 194 || p[1] == 195 || 202 <= p[1] <= 213) ==> received(
            p,
            should_decrypt,
        ) == (Received::Rtcp { decrypt: should_decrypt }),
        p.len() >= 8 && (p[1] == 200 || p[1] == 201) ==> received(p, should_decrypt) == (
        Received::Rtcp { decrypt: should_decrypt }),
        2 <= p.len() < 8 && (p[1] == 200 || p[1] == 201) ==> received(
            p,
            should_decrypt,
        ) is FailedParse,
        2 <= p.len() < 12 && p[1] != 194 && p[1] != 195 && (p[1] < 200 || p[1] > 213)
            ==> received(p, should_decrypt) is FailedParse,
        p.len() >= 12 && p[1] != 194 && p[1] != 195 && (p[1] < 200 || p[1] > 213) && (p[0] < 128
            || p[0] > 191 || (p[1] != 120 && p[1] != 248)) ==> received(
            p,
            should_decrypt,
        ) is IllegalRtp,
        p.len() >= 12 && 128 <= p[0] <= 191 && (p[1] == 120 || p[1] == 248) ==> {
            &&& received(p, should_decrypt) matches Received::Rtp { header, decrypt }
            &&& decrypt == should_decrypt
            &&& header.version == 2
            &&& header.payload_type == 120
            &&& header.ssrc == p[8] * 0x100_0000 + p[9] * 0x1_0000 + p[10] * 0x100 + p[11]
            &&& header.payload_len == if p.len() > 12 + p[0] % 16 {
                p.len() - 12 - p[0] % 16
            } else {
                0
            }
        },
{
    law_packet_told_apart(p);
}

/// A packet that arrives is counted as a packet and as the one kind of packet that
/// it is. Nothing else is counted.
pub proof fn law_arrival_counted(s: UdpRxStats, packet: Seq<u8>)
    ensures
        ({
            let t = stats_received(s, packet);
            let kind = demuxed(packet);
            &&& s.udp_packets < u64::MAX ==> t.udp_packets == s.udp_packets + 1
            &&& s.udp_packets == u64::MAX ==> t.udp_packets == u64::MAX
            &&& kind is Rtp && s.rtp_packets < u64::MAX ==> t.rtp_packets == s.rtp_packets + 1
            &&& kind is Rtcp && s.rtcp_packets < u64::MAX ==> t.rtcp_packets == s.rtcp_packets + 1
            &&& kind is FailedParse && s.demux_fail_parse < u64::MAX ==> t.demux_fail_parse
                == s.demux_fail_parse + 1
            &&& kind is TooSmall && s.demux_too_small < u64::MAX ==> t.demux_too_small
                == s.demux_too_small + 1
            &&& !(kind is Rtp) || s.rtp_packets == u64::MAX ==> t.rtp_packets == s.rtp_packets
            &&& !(kind is Rtcp) || s.rtcp_packets == u64::MAX ==> t.rtcp_packets == s.rtcp_packets
            &&& !(kind is FailedParse) || s.demux_fail_parse == u64::MAX ==> t.demux_fail_parse
                == s.demux_fail_parse
            &&& !(kind is TooSmall) || s.demux_too_small == u64::MAX ==> t.demux_too_small
                == s.demux_too_small
            &&& t.dave_decrypt_success == s.dave_decrypt_success
            &&& t.dave_decrypt_fail_ready == s.dave_decrypt_fail_ready
            &&& t.dave_decrypt_skip_not_ready == s.dave_decrypt_skip_not_ready
            &&& t.decode_errors == s.decode_errors
        }),
{
}

/// Where transport decryption succeeded, the audio lies where it said, in the clear;
/// otherwise it is taken to lie where encryption would have put it, and not to be in
/// the clear.
pub proof fn law_audio_after_transport(m: UdpRxModel, start: usize, tail: usize)
    ensures
        transport_body(m, Some((start, tail))).start == start,
        transport_body(m, Some((start, tail))).tail == tail,
        transport_body(m, Some((start, tail))).decrypted,
        transport_body(m, None).start == m.payload_prefix_len,
        transport_body(m, None).tail == m.payload_suffix_len,
        !transport_body(m, None).decrypted,
{
}

/// What is handed to DAVE of a packet: every byte of its payload, which is the end
/// of the packet, but for those before the body and those behind it. Nothing is
/// handed over of an empty payload, nor of one that is too short for both.
pub proof fn law_sealed_bytes(packet: Seq<u8>, payload_len: nat, body: RtpBody)
    requires
        payload_len <= packet.len(),
    ensures
        sealed_body(packet, payload_len, body) is Some <==> payload_len > 0 && body.start
            + body.tail <= payload_len,
        sealed_body(packet, payload_len, body) matches Some(sealed) ==> {
            &&& sealed.len() == payload_len - body.start - body.tail
            &&& forall|i: int|
                0 <= i < sealed.len() ==> #[trigger] sealed[i] == packet[packet.len() - payload_len
                    + body.start + i]
        },
{
}

/// A plaintext that fits into the payload behind the bytes before the body is
/// written there, byte by byte. No other byte changes, and the audio is in the
/// clear then, up to the end of the plaintext.
pub proof fn law_plaintext_written(
    packet: Seq<u8>,
    payload_len: nat,
    body: RtpBody,
    plain: Seq<u8>,
)
    requires
        payload_len <= packet.len() <= usize::MAX,
        body.start + plain.len() <= payload_len,
    ensures
        ({
            let opened = opened_packet(packet, payload_len, body.start, Some(plain));
            let after = opened_body(body, payload_len, Some(plain));
            let at = packet.len() - payload_len + body.start;
            &&& opened.len() == packet.len()
            &&& forall|i: int|
                0 <= i < plain.len() ==> opened[at + i] == #[trigger] plain[i]
            &&& forall|i: int|
                0 <= i < at || at + plain.len() <= i < packet.len() ==> #[trigger] opened[i]
                    == packet[i]
            &&& after.start == body.start
            &&& after.tail == payload_len - body.start - plain.len()
            &&& after.decrypted
        }),
{
}

/// Without a plaintext, and with one that does not fit, the packet stays as it is,
/// and the audio where it was.
pub proof fn law_packet_left_alone(
    packet: Seq<u8>,
    payload_len: nat,
    body: RtpBody,
    plain: Option<Seq<u8>>,
)
    requires
        plain matches Some(p) ==> body.start + p.len() > payload_len,
    ensures
        opened_packet(packet, payload_len, body.start, plain) == packet,
        opened_body(body, payload_len, plain) == body,
{
}

/// What is counted of what DAVE made of a packet: a success where the plaintext
/// fits, a failure where there is none although DAVE was ready, and a packet
/// skipped where it was not ready. A plaintext that does not fit counts as nothing,
/// and no other counter moves.
pub proof fn law_opening_counted(
    s: UdpRxStats,
    payload_len: nat,
    start: usize,
    ready: bool,
    plain: Option<Seq<u8>>,
)
    ensures
        ({
            let t = stats_opened(s, payload_len, start, ready, plain);
            let success = plain is Some && start + plain->0.len() <= payload_len;
            &&& success && s.dave_decrypt_success < u64::MAX ==> t.dave_decrypt_success
                == s.dave_decrypt_success + 1
            &&& !success || s.dave_decrypt_success == u64::MAX ==> t.dave_decrypt_success
                == s.dave_decrypt_success
            &&& plain is None && ready && s.dave_decrypt_fail_ready < u64::MAX
                ==> t.dave_decrypt_fail_ready == s.dave_decrypt_fail_ready + 1
            &&& plain is Some || !ready || s.dave_decrypt_fail_ready == u64::MAX
                ==> t.dave_decrypt_fail_ready == s.dave_decrypt_fail_ready
            &&& plain is None && !ready && s.dave_decrypt_skip_not_ready < u64::MAX
                ==> t.dave_decrypt_skip_not_ready == s.dave_decrypt_skip_not_ready + 1
            &&& plain is Some || ready || s.dave_decrypt_skip_not_ready == u64::MAX
                ==> t.dave_decrypt_skip_not_ready == s.dave_decrypt_skip_not_ready
            &&& t.udp_packets == s.udp_packets
            &&& t.rtp_packets == s.rtp_packets
            &&& t.rtcp_packets == s.rtcp_packets
            &&& t.demux_fail_parse == s.demux_fail_parse
            &&& t.demux_too_small == s.demux_too_small
            &&& t.decode_errors == s.decode_errors
        }),
{
}

/// A body is handed to DAVE as it is, but where one of its numbers runs over ten
/// bytes: nothing comes of such a body, and DAVE never sees it.
pub proof fn law_body_handed_to_dave(
    dave: DaveModel,
    user_id: u64,
    sealed: Seq<u8>,
    plain: Option<Seq<u8>>,
    dave_after: DaveModel,
)
    requires
        body_opened(dave, user_id, sealed, plain, dave_after),
    ensures
        !has_overlong_number(sealed) ==> opus_opened(dave, user_id, sealed, plain, dave_after),
        has_overlong_number(sealed) ==> plain is None && dave_after == dave,
{
}

/// As long as DAVE is not ready, every packet stays as it is and is counted as
/// skipped.
pub proof fn law_skipped_before_ready(
    m: UdpRxModel,
    packet: Seq<u8>,
    payload_len: nat,
    body: RtpBody,
    user_id: u64,
    sealed: Seq<u8>,
    dave: DaveModel,
    f: UdpRxModel,
    opened: Seq<u8>,
    dave_after: DaveModel,
    body_after: RtpBody,
)
    requires
        dave.session is None || !session_of(dave.session->0).ready,
        opening_step(
            m,
            packet,
            payload_len,
            body,
            user_id,
            sealed,
            dave,
            f,
            opened,
            dave_after,
            body_after,
        ),
    ensures
        opened == packet,
        body_after == body,
        dave_after == dave,
        m.stats.dave_decrypt_skip_not_ready < u64::MAX ==> f.stats.dave_decrypt_skip_not_ready
            == m.stats.dave_decrypt_skip_not_ready + 1,
        f == (UdpRxModel {
            stats: UdpRxStats {
                dave_decrypt_skip_not_ready: f.stats.dave_decrypt_skip_not_ready,
                ..m.stats
            },
            ..m
        }),
{
}

/// Once DAVE is ready, its session is asked to open what was sealed, under the
/// sender's id. What it gives is written into the packet and counted as a success
/// where it fits; where it gives nothing, the packet stays as it is and is counted
/// as a failure.
pub proof fn law_opened_once_ready(
    m: UdpRxModel,
    packet: Seq<u8>,
    payload_len: nat,
    body: RtpBody,
    user_id: u64,
    sealed: Seq<u8>,
    dave: DaveModel,
    f: UdpRxModel,
    opened: Seq<u8>,
    dave_after: DaveModel,
    body_after: RtpBody,
)
    requires
        payload_len <= packet.len() <= usize::MAX,
        dave.session is Some,
        session_of(dave.session->0).ready,
        !has_overlong_number(sealed),
        opening_step(
            m,
            packet,
            payload_len,
            body,
            user_id,
            sealed,
            dave,
            f,
            opened,
            dave_after,
            body_after,
        ),
    ensures
        dave_after.session is Some,
        dave_after == (DaveModel { session: dave_after.session, ..dave }),
        exists|plain: Option<Seq<u8>>|
            {
                &&& #[trigger] opened_frame(
                    dave.session->0,
                    user_id,
                    sealed,
                    plain,
                    dave_after.session->0,
                )
                &&& plain is None ==> {
                    &&& opened == packet
                    &&& body_after == body
                    &&& m.stats.dave_decrypt_fail_ready < u64::MAX
                        ==> f.stats.dave_decrypt_fail_ready == m.stats.dave_decrypt_fail_ready + 1
                    &&& f.stats.dave_decrypt_success == m.stats.dave_decrypt_success
                }
                &&& plain is Some && body.start + plain->0.len() > payload_len ==> {
                    &&& opened == packet
                    &&& body_after == body
                    &&& f.stats == m.stats
                }
                &&& plain is Some && body.start + plain->0.len() <= payload_len ==> {
                    let at = packet.len() - payload_len + body.start;
                    &&& opened.len() == packet.len()
                    &&& opened.subrange(at, at + plain->0.len()) == plain->0
                    &&& opened.take(at) == packet.take(at)
                    &&& opened.skip(at + plain->0.len()) == packet.skip(at + plain->0.len())
                    &&& body_after.start == body.start
                    &&& body_after.tail == payload_len - body.start - plain->0.len()
                    &&& body_after.decrypted
                    &&& m.stats.dave_decrypt_success < u64::MAX ==> f.stats.dave_decrypt_success
                        == m.stats.dave_decrypt_success + 1
                    &&& f.stats.dave_decrypt_fail_ready == m.stats.dave_decrypt_fail_ready
                }
            },
        f == (UdpRxModel {
            stats: UdpRxStats {
                dave_decrypt_success: f.stats.dave_decrypt_success,
                dave_decrypt_fail_ready: f.stats.dave_decrypt_fail_ready,
                ..m.stats
            },
            ..m
        }),
{
    let plain = choose|plain: Option<Seq<u8>>|
        #[trigger] body_opened(dave, user_id, sealed, plain, dave_after) && f == (UdpRxModel {
            stats: stats_opened(m.stats, payload_len, body.start, dave.ready(), plain),
            ..m
        }) && opened == opened_packet(packet, payload_len, body.start, plain) && body_after
            == opened_body(body, payload_len, plain);
    assert(opened_frame(dave.session->0, user_id, sealed, plain, dave_after.session->0));
    if plain is Some && body.start + plain->0.len() <= payload_len {
        let at = packet.len() - payload_len + body.start;
        law_plaintext_written(packet, payload_len, body, plain->0);
        assert(opened.subrange(at, at + plain->0.len()) =~= plain->0);
        assert(opened.take(at) =~= packet.take(at));
        assert(opened.skip(at + plain->0.len()) =~= packet.skip(at + plain->0.len()));
    }
}

/// A sender speaks at a tick exactly where its decoder had audio.
pub proof fn law_speaks_with_audio(polled: Seq<(u32, Polled)>, ssrc: u32)
    ensures
        speaks(polled, ssrc) <==> exists|i: int|
            0 <= i < polled.len() && (#[trigger] polled[i]).0 == ssrc && polled[i].1 is Audio,
{
    if exists|i: int|
        0 <= i < polled.len() && (#[trigger] polled[i]).0 == ssrc && polled[i].1 is Audio {
        let i = choose|i: int|
            0 <= i < polled.len() && (#[trigger] polled[i]).0 == ssrc && polled[i].1 is Audio;
        assert(polled[i] == (ssrc, Polled::Audio));
    }
}

/// A sender is silent at a tick where its decoder failed, and where it had nothing
/// and the sender is not known to have left.
pub proof fn law_silent_without_audio(
    decoders: Map<u32, DecoderLife>,
    polled: Seq<(u32, Polled)>,
    ssrc: u32,
)
    ensures
        is_silent(decoders, polled, ssrc) <==> exists|i: int|
            {
                &&& 0 <= i < polled.len()
                &&& (#[trigger] polled[i]).0 == ssrc
                &&& {
                    ||| polled[i].1 is Failed
                    ||| polled[i].1 is Nothing && !(decoders.contains_key(ssrc)
                        && decoders[ssrc].disconnected)
                }
            },
        has_left(decoders, ssrc) <==> decoders.contains_key(ssrc) && decoders[ssrc].disconnected,
{
    if exists|i: int|
        0 <= i < polled.len() && (#[trigger] polled[i]).0 == ssrc && (polled[i].1 is Failed
            || polled[i].1 is Nothing && !(decoders.contains_key(ssrc)
            && decoders[ssrc].disconnected)) {
        let i = choose|i: int|
            0 <= i < polled.len() && (#[trigger] polled[i]).0 == ssrc && (polled[i].1 is Failed
                || polled[i].1 is Nothing && !(decoders.contains_key(ssrc)
                && decoders[ssrc].disconnected));
        assert(polled[i] == (ssrc, Polled::Failed) || polled[i] == (ssrc, Polled::Nothing));
    }
}

/// Every decoder that failed is counted once, and no other is.
pub proof fn law_failures_counted(polled: Seq<(u32, Polled)>, ssrc: u32, outcome: Polled)
    ensures
        failures(Seq::empty()) == 0,
        outcome is Failed ==> failures(polled.push((ssrc, outcome))) == failures(polled) + 1,
        !(outcome is Failed) ==> failures(polled.push((ssrc, outcome))) == failures(polled),
{
    assert(polled.push((ssrc, outcome)).drop_last() =~= polled);
}

/// Which decoders a cleanup keeps, and how: one whose user has left for a second
/// more, marked as left; any other as it is, until its time is up. None is added.
pub proof fn law_decoders_kept(
    decoders: Map<u32, DecoderLife>,
    left: Set<u32>,
    now: u64,
    ssrc: u32,
)
    requires
        now + 1_000_000_000 <= u64::MAX,
    ensures
        ({
            let kept = kept_decoders(decoders, left, now);
            &&& kept.contains_key(ssrc) <==> decoders.contains_key(ssrc) && (left.contains(ssrc)
                || decoders[ssrc].prune_time > now)
            &&& kept.contains_key(ssrc) && left.contains(ssrc) ==> kept[ssrc].disconnected
                && kept[ssrc].prune_time == now + 1_000_000_000
            &&& kept.contains_key(ssrc) && !left.contains(ssrc) ==> kept[ssrc] == decoders[ssrc]
        }),
{
}

/// What was counted is reported once a minute has passed since the last report.
pub proof fn law_report_every_minute(m: UdpRxModel, now: u64)
    ensures
        report_due(m, now) <==> now >= m.last_stats_report + 60_000_000_000,
{
}

/// After a report everything is counted from zero.
pub proof fn law_counting_starts_over()
    ensures
        ({
            let s = UdpRxStats::zero();
            &&& s.udp_packets == 0
            &&& s.rtp_packets == 0
            &&& s.rtcp_packets == 0
            &&& s.demux_fail_parse == 0
            &&& s.demux_too_small == 0
            &&& s.dave_decrypt_success == 0
            &&& s.dave_decrypt_fail_ready == 0
            &&& s.dave_decrypt_skip_not_ready == 0
            &&& s.decode_errors == 0
        }),
{
}

/// A body with a number that runs over ten bytes leaves the packet and the DAVE
/// state as they are. It counts as a failure where DAVE is ready.
pub proof fn law_overlong_body_unopened(
    m: UdpRxModel,
    packet: Seq<u8>,
    payload_len: nat,
    body: RtpBody,
    user_id: u64,
    sealed: Seq<u8>,
    dave: DaveModel,
    f: UdpRxModel,
    opened: Seq<u8>,
    dave_after: DaveModel,
    body_after: RtpBody,
)
    requires
        has_overlong_number(sealed),
        dave.session is Some,
        session_of(dave.session->0).ready,
        opening_step(
            m,
            packet,
            payload_len,
            body,
            user_id,
            sealed,
            dave,
            f,
            opened,
            dave_after,
            body_after,
        ),
    ensures
        opened == packet,
        body_after == body,
        dave_after == dave,
        m.stats.dave_decrypt_fail_ready < u64::MAX ==> f.stats.dave_decrypt_fail_ready
            == m.stats.dave_decrypt_fail_ready + 1,
        f == (UdpRxModel {
            stats: UdpRxStats {
                dave_decrypt_fail_ready: f.stats.dave_decrypt_fail_ready,
                ..m.stats
            },
            ..m
        }),
{
}

/// What the model of the task shows: every field of the task as it is.
pub proof fn law_receiver_shown(rx: UdpRx, tracker: SsrcTracker)
    ensures
        rx@.payload_prefix_len == rx.payload_prefix_len,
        rx@.payload_suffix_len == rx.payload_suffix_len,
        rx@.config == rx.config,
        rx@.decoders == rx.decoder_map@,
        rx@.stats == rx.stats,
        rx@.last_stats_report == rx.last_stats_report,
        rx@.cleanup_time == rx.cleanup_time,
        rx@.playout_time == rx.playout_time,
        tracker@.ssrcs == tracker.user_ssrc_map@,
        tracker@.disconnected == tracker.disconnected_users@,
{
}

} // verus!
