//! The receive task of a voice connection, as decisions on plain values: what
//! it makes of each packet, which decoders it keeps, and what it counts.
use crate::rtp::{demux, demuxed, rtp_valid, Demuxed, RtpHeader, RTP_PROFILE_TYPE, RTP_VERSION};
use crate::session::{bytes_of, frame_is_overlong, has_overlong_number};
use crate::ssrc::{SsrcTracker, TrackerModel};
use crate::ws_dave::{opus_opened, DaveModel, DaveState};
use std::collections::{HashMap, HashSet};
use vstd::prelude::*;
use vstd::std_specs::iter::IteratorSpec;

verus! {

broadcast use vstd::std_specs::hash::group_hash_axioms;

/// The time between two voice ticks, in nanoseconds.
pub const TIMESTEP_LENGTH: u64 = 20_000_000;

/// How long a decoder outlives its user's departure, in nanoseconds: what is
/// buffered may still have to be decoded.
pub const DISCONNECT_GRACE: u64 = 1_000_000_000;

/// The time between two cleanups, in nanoseconds.
pub const CLEANUP_INTERVAL: u64 = 5_000_000_000;

/// The time between two reports of what was counted, in nanoseconds.
pub const STATS_INTERVAL: u64 = 60_000_000_000;

/// What the receive task counts between two reports. A counter that is full
/// stays full.
#[derive(Clone, Copy, Debug, PartialEq, Eq, Structural)]
pub struct UdpRxStats {
    pub udp_packets: u64,
    pub rtp_packets: u64,
    pub rtcp_packets: u64,
    pub demux_fail_parse: u64,
    pub demux_too_small: u64,
    pub dave_decrypt_success: u64,
    pub dave_decrypt_fail_ready: u64,
    pub dave_decrypt_skip_not_ready: u64,
    pub decode_errors: u64,
}

impl UdpRxStats {
    /// Nothing counted yet.
    pub open spec fn zero() -> UdpRxStats {
        UdpRxStats {
            udp_packets: 0,
            rtp_packets: 0,
            rtcp_packets: 0,
            demux_fail_parse: 0,
            demux_too_small: 0,
            dave_decrypt_success: 0,
            dave_decrypt_fail_ready: 0,
            dave_decrypt_skip_not_ready: 0,
            decode_errors: 0,
        }
    }
}

impl Default for UdpRxStats {
    fn default() -> (stats: Self)
        ensures
            stats == UdpRxStats::zero(),
    {
        UdpRxStats {
            udp_packets: 0,
            rtp_packets: 0,
            rtcp_packets: 0,
            demux_fail_parse: 0,
            demux_too_small: 0,
            dave_decrypt_success: 0,
            dave_decrypt_fail_ready: 0,
            dave_decrypt_skip_not_ready: 0,
            decode_errors: 0,
        }
    }
}

/// A counter after `n` more.
pub open spec fn counted(counter: u64, n: nat) -> u64 {
    if counter + n > u64::MAX {
        u64::MAX
    } else {
        (counter + n) as u64
    }
}

/// How long the decoder of an SSRC is kept.
#[derive(Clone, Copy, Debug, PartialEq, Eq, Structural)]
pub struct DecoderLife {
    pub prune_time: u64,
    pub disconnected: bool,
}

/// What the receive task is configured to do.
#[derive(Clone, Copy, Debug, PartialEq, Eq, Structural)]
pub struct RxConfig {
    /// Whether packets are decrypted.
    pub should_decrypt: bool,
    /// The channels that are decoded to.
    pub decode_channels: u8,
    /// The sample rate that is decoded to.
    pub decode_sample_rate: u32,
}

/// The receive task of a connection. Times are nanoseconds on a clock of the
/// caller's.
#[derive(Debug)]
pub struct UdpRx {
    /// The bytes that transport encryption puts before a payload.
    pub payload_prefix_len: usize,
    /// The bytes that transport encryption puts behind a payload.
    pub payload_suffix_len: usize,
    pub config: RxConfig,
    pub decoder_map: HashMap<u32, DecoderLife>,
    pub stats: UdpRxStats,
    pub last_stats_report: u64,
    pub cleanup_time: u64,
    pub playout_time: u64,
}

/// The receive task as its contracts speak of it.
pub struct UdpRxModel {
    pub payload_prefix_len: usize,
    pub payload_suffix_len: usize,
    pub config: RxConfig,
    pub decoders: Map<u32, DecoderLife>,
    pub stats: UdpRxStats,
    pub last_stats_report: u64,
    pub cleanup_time: u64,
    pub playout_time: u64,
}

impl View for UdpRx {
    type V = UdpRxModel;

    open spec fn view(&self) -> UdpRxModel {
        UdpRxModel {
            payload_prefix_len: self.payload_prefix_len,
            payload_suffix_len: self.payload_suffix_len,
            config: self.config,
            decoders: self.decoder_map@,
            stats: self.stats,
            last_stats_report: self.last_stats_report,
            cleanup_time: self.cleanup_time,
            playout_time: self.playout_time,
        }
    }
}

/// What is to be done with a packet that arrived.
#[derive(Clone, Copy, Debug, PartialEq, Eq, Structural)]
pub enum Received {
    /// Decrypt it if need be, then process it as RTP.
    Rtp { header: RtpHeader, decrypt: bool },
    /// Drop it: it is RTP, but nothing that a voice server sends.
    IllegalRtp,
    /// Decrypt it if need be, then process it as RTCP.
    Rtcp { decrypt: bool },
    /// Drop it: it is too short for its header.
    FailedParse,
    /// Drop it: it is too short to tell what it is.
    TooSmall,
}

/// What is to be done with a packet.
pub open spec fn received(packet: Seq<u8>, should_decrypt: bool) -> Received {
    match demuxed(packet) {
        Demuxed::Rtp(header) => if header.version == RTP_VERSION && header.payload_type
            == RTP_PROFILE_TYPE {
            Received::Rtp { header, decrypt: should_decrypt }
        } else {
            Received::IllegalRtp
        },
        Demuxed::Rtcp => Received::Rtcp { decrypt: should_decrypt },
        Demuxed::FailedParse => Received::FailedParse,
        Demuxed::TooSmall => Received::TooSmall,
    }
}

/// What is counted when a packet arrives: the packet, and what it is.
pub open spec fn stats_received(s: UdpRxStats, packet: Seq<u8>) -> UdpRxStats {
    let t = UdpRxStats { udp_packets: counted(s.udp_packets, 1), ..s };
    match demuxed(packet) {
        Demuxed::Rtp(_) => UdpRxStats { rtp_packets: counted(s.rtp_packets, 1), ..t },
        Demuxed::Rtcp => UdpRxStats { rtcp_packets: counted(s.rtcp_packets, 1), ..t },
        Demuxed::FailedParse => UdpRxStats {
            demux_fail_parse: counted(s.demux_fail_parse, 1),
            ..t
        },
        Demuxed::TooSmall => UdpRxStats { demux_too_small: counted(s.demux_too_small, 1), ..t },
    }
}

/// Where the audio lies in a payload, and whether it is in the clear.
#[derive(Clone, Copy, Debug, PartialEq, Eq, Structural)]
pub struct RtpBody {
    /// The bytes of the payload before it.
    pub start: usize,
    /// The bytes of the payload behind it.
    pub tail: usize,
    pub decrypted: bool,
}

/// Where the audio lies after transport decryption, which found it behind
/// `start` bytes and before `tail` bytes of the payload, or did not succeed.
pub open spec fn transport_body(m: UdpRxModel, transport: Option<(usize, usize)>) -> RtpBody {
    match transport {
        Some((start, tail)) => RtpBody { start, tail, decrypted: true },
        None => RtpBody {
            start: m.payload_prefix_len,
            tail: m.payload_suffix_len,
            decrypted: false,
        },
    }
}

/// What DAVE has to decrypt in a packet: the body within the payload, which is
/// the end of the packet. There is nothing where the payload is empty or too
/// short.
pub open spec fn sealed_body(packet: Seq<u8>, payload_len: nat, body: RtpBody) -> Option<Seq<u8>> {
    if payload_len > 0 && body.start + body.tail <= payload_len {
        Some(
            packet.subrange(
                packet.len() - payload_len + body.start,
                packet.len() - body.tail,
            ),
        )
    } else {
        None
    }
}

/// Whether a plaintext fits into a payload behind `start` bytes.
pub open spec fn fits(payload_len: nat, start: usize, plain: Seq<u8>) -> bool {
    start + plain.len() <= payload_len
}

/// A packet with a plaintext written over the start of its body, where it fits.
pub open spec fn opened_packet(
    packet: Seq<u8>,
    payload_len: nat,
    start: usize,
    plain: Option<Seq<u8>>,
) -> Seq<u8> {
    match plain {
        Some(plain) => if fits(payload_len, start, plain) {
            let at = packet.len() - payload_len + start;
            packet.subrange(0, at) + plain + packet.subrange(at + plain.len(), packet.len() as int)
        } else {
            packet
        },
        None => packet,
    }
}

/// Where the audio lies once DAVE has decrypted it, where it fits.
pub open spec fn opened_body(body: RtpBody, payload_len: nat, plain: Option<Seq<u8>>) -> RtpBody {
    match plain {
        Some(plain) => if fits(payload_len, body.start, plain) {
            RtpBody {
                start: body.start,
                tail: (payload_len - body.start - plain.len()) as usize,
                decrypted: true,
            }
        } else {
            body
        },
        None => body,
    }
}

/// What is counted when DAVE was asked to decrypt: that it did, or that it
/// failed although it was ready, or that it was not ready. A plaintext that
/// does not fit is not counted.
pub open spec fn stats_opened(
    s: UdpRxStats,
    payload_len: nat,
    start: usize,
    ready: bool,
    plain: Option<Seq<u8>>,
) -> UdpRxStats {
    match plain {
        Some(plain) => if fits(payload_len, start, plain) {
            UdpRxStats { dave_decrypt_success: counted(s.dave_decrypt_success, 1), ..s }
        } else {
            s
        },
        None => if ready {
            UdpRxStats { dave_decrypt_fail_ready: counted(s.dave_decrypt_fail_ready, 1), ..s }
        } else {
            UdpRxStats {
                dave_decrypt_skip_not_ready: counted(s.dave_decrypt_skip_not_ready, 1),
                ..s
            }
        },
    }
}

/// What became of an RTP packet.
#[derive(Clone, Copy, Debug, PartialEq, Eq, Structural)]
pub struct RtpOutcome {
    /// Who sent it, as far as anyone announced its SSRC.
    pub user_id: Option<u64>,
    /// Where the audio lies in the payload, and whether it is in the clear.
    pub body: RtpBody,
}

/// What DAVE may make of the body of a packet. A body with a number that no
/// session writes, and on which reading it may panic, is not handed to it.
pub open spec fn body_opened(
    dave: DaveModel,
    user_id: u64,
    sealed: Seq<u8>,
    plain: Option<Seq<u8>>,
    dave_after: DaveModel,
) -> bool {
    if has_overlong_number(sealed) {
        plain is None && dave_after == dave
    } else {
        opus_opened(dave, user_id, sealed, plain, dave_after)
    }
}

/// What asking DAVE to decrypt `sealed`, out of a packet of a user, does: to the receive task, to
/// the packet, to the DAVE state and to where the audio lies.
pub open spec fn opening_step(
    m: UdpRxModel,
    packet: Seq<u8>,
    payload_len: nat,
    body: RtpBody,
    user_id: u64,
    sealed: Seq<u8>,
    dave: DaveModel,
    f: UdpRxModel,
    opened: Seq<u8>,
    dave_after: DaveModel,
    body_after: RtpBody,
) -> bool {
    exists|plain: Option<Seq<u8>>|
        #[trigger] body_opened(dave, user_id, sealed, plain, dave_after) && f == (UdpRxModel {
            stats: stats_opened(m.stats, payload_len, body.start, dave.ready(), plain),
            ..m
        }) && opened == opened_packet(packet, payload_len, body.start, plain) && body_after
            == opened_body(body, payload_len, plain)
}

impl UdpRx {
    /// A task that is about to start.
    pub fn new(
        payload_prefix_len: usize,
        payload_suffix_len: usize,
        config: RxConfig,
        now: u64,
    ) -> (rx: Self)
        requires
            now + TIMESTEP_LENGTH <= u64::MAX,
        ensures
            rx@ == (UdpRxModel {
                payload_prefix_len,
                payload_suffix_len,
                config,
                decoders: Map::empty(),
                stats: UdpRxStats::zero(),
                last_stats_report: now,
                cleanup_time: now,
                playout_time: (now + TIMESTEP_LENGTH) as u64,
            }),
            rx@.playout_time == now + 20_000_000,
    {
        UdpRx {
            payload_prefix_len,
            payload_suffix_len,
            config,
            decoder_map: HashMap::new(),
            stats: UdpRxStats::default(),
            last_stats_report: now,
            cleanup_time: now,
            playout_time: now + TIMESTEP_LENGTH,
        }
    }

    /// Counts a packet that arrived, and decides what is to be done with it.
    pub fn receive(&mut self, packet: &[u8]) -> (verdict: Received)
        ensures
            verdict == received(packet@, old(self)@.config.should_decrypt),
            final(self)@ == (UdpRxModel {
                stats: stats_received(old(self)@.stats, packet@),
                ..old(self)@
            }),
    {
        self.stats.udp_packets = self.stats.udp_packets.saturating_add(1);
        match demux(packet) {
            Demuxed::Rtp(header) => {
                self.stats.rtp_packets = self.stats.rtp_packets.saturating_add(1);
                if rtp_valid(&header) {
                    Received::Rtp { header, decrypt: self.config.should_decrypt }
                } else {
                    Received::IllegalRtp
                }
            },
            Demuxed::Rtcp => {
                self.stats.rtcp_packets = self.stats.rtcp_packets.saturating_add(1);
                Received::Rtcp { decrypt: self.config.should_decrypt }
            },
            Demuxed::FailedParse => {
                self.stats.demux_fail_parse = self.stats.demux_fail_parse.saturating_add(1);
                Received::FailedParse
            },
            Demuxed::TooSmall => {
                self.stats.demux_too_small = self.stats.demux_too_small.saturating_add(1);
                Received::TooSmall
            },
        }
    }

    /// Where the payload of a packet lies after transport decryption.
    pub fn body_of(&self, transport: Option<(usize, usize)>) -> (body: RtpBody)
        ensures
            body == transport_body(self@, transport),
    {
        match transport {
            Some((start, tail)) => RtpBody { start, tail, decrypted: true },
            None => RtpBody {
                start: self.payload_prefix_len,
                tail: self.payload_suffix_len,
                decrypted: false,
            },
        }
    }

    /// Puts what DAVE made of the body of a packet in its place, and counts it.
    pub fn apply_plaintext(
        &mut self,
        packet: &mut Vec<u8>,
        payload_len: usize,
        body: RtpBody,
        ready: bool,
        plain: Option<Vec<u8>>,
    ) -> (opened: RtpBody)
        requires
            payload_len <= old(packet)@.len(),
        ensures
            opened == opened_body(body, payload_len as nat, bytes_of(plain)),
            final(packet)@ == opened_packet(
                old(packet)@,
                payload_len as nat,
                body.start,
                bytes_of(plain),
            ),
            final(self)@ == (UdpRxModel {
                stats: stats_opened(
                    old(self)@.stats,
                    payload_len as nat,
                    body.start,
                    ready,
                    bytes_of(plain),
                ),
                ..old(self)@
            }),
    {
        match plain {
            Some(plain) => {
                if body.start > payload_len || plain.len() > payload_len - body.start {
                    return body;
                }
                overwrite(packet, packet.len() - payload_len + body.start, &plain);
                self.stats.dave_decrypt_success = self.stats.dave_decrypt_success.saturating_add(1);
                RtpBody {
                    start: body.start,
                    tail: payload_len - body.start - plain.len(),
                    decrypted: true,
                }
            },
            None => {
                if ready {
                    self.stats.dave_decrypt_fail_ready =
                    self.stats.dave_decrypt_fail_ready.saturating_add(1);
                } else {
                    self.stats.dave_decrypt_skip_not_ready =
                    self.stats.dave_decrypt_skip_not_ready.saturating_add(1);
                }
                body
            },
        }
    }

    /// Processes an RTP packet after transport decryption: finds out who sent
    /// it, and has DAVE decrypt it where that is known.
    pub fn process_rtp(
        &mut self,
        header: &RtpHeader,
        packet: &mut Vec<u8>,
        transport: Option<(usize, usize)>,
        tracker: &SsrcTracker,
        dave: &mut DaveState,
    ) -> (outcome: RtpOutcome)
        requires
            header.payload_len <= old(packet)@.len(),
        ensures
            tracker@.may_be_sender(header.ssrc, outcome.user_id),
            ({
                let body = transport_body(old(self)@, transport);
                let sealed = sealed_body(old(packet)@, header.payload_len as nat, body);
                if outcome.user_id is Some && sealed is Some {
                    opening_step(
                        old(self)@,
                        old(packet)@,
                        header.payload_len as nat,
                        body,
                        outcome.user_id->0,
                        sealed->0,
                        old(dave)@,
                        final(self)@,
                        final(packet)@,
                        final(dave)@,
                        outcome.body,
                    )
                } else {
                    &&& final(self)@ == old(self)@
                    &&& final(packet)@ == old(packet)@
                    &&& final(dave)@ == old(dave)@
                    &&& outcome.body == body
                }
            }),
    {
        let body = self.body_of(transport);
        let user_id = tracker.sender_of(header.ssrc);
        let payload_len = header.payload_len;
        if let Some(sender) = user_id {
            if payload_len > 0 && body.start <= payload_len && body.tail <= payload_len
                - body.start {
                let from = packet.len() - payload_len + body.start;
                let sealed = copy_range(packet, from, packet.len() - body.tail);
                let ready = dave.dave_ready();
                // What arrives may be made up by anyone, and must not lead to a panic.
                let plain = if frame_is_overlong(&sealed) {
                    None
                } else {
                    dave.decrypt_opus_for_user(sender, &sealed)
                };
                assert(body_opened(old(dave)@, sender, sealed@, bytes_of(plain), dave@));
                let opened = self.apply_plaintext(packet, payload_len, body, ready, plain);
                return RtpOutcome { user_id, body: opened };
            }
        }
        RtpOutcome { user_id, body }
    }

    /// Processes an RTCP packet after transport decryption: says how many bytes
    /// of its payload come before and behind what was encrypted.
    pub fn process_rtcp(&self, transport: Option<(usize, usize)>) -> (bounds: (usize, usize))
        ensures
            bounds == (match transport {
                Some(bounds) => bounds,
                None => (self@.payload_prefix_len, self@.payload_suffix_len),
            }),
    {
        match transport {
            Some(bounds) => bounds,
            None => (self.payload_prefix_len, self.payload_suffix_len),
        }
    }
}

/// Copies a range of bytes.
fn copy_range(bytes: &Vec<u8>, from: usize, to: usize) -> (copy: Vec<u8>)
    requires
        from <= to <= bytes@.len(),
    ensures
        copy@ == bytes@.subrange(from as int, to as int),
{
    let mut copy: Vec<u8> = Vec::with_capacity(to - from);
    for i in from..to
        invariant
            from <= to <= bytes@.len(),
            copy@ == bytes@.subrange(from as int, i as int),
    {
        copy.push(bytes[i]);
    }
    copy
}

/// Writes bytes over those at a place.
fn overwrite(bytes: &mut Vec<u8>, at: usize, with: &Vec<u8>)
    requires
        at + with@.len() <= old(bytes)@.len(),
    ensures
        final(bytes)@ == old(bytes)@.subrange(0, at as int) + with@ + old(bytes)@.subrange(
            at + with@.len(),
            old(bytes)@.len() as int,
        ),
{
    let ghost before = bytes@;
    let len = bytes.len();
    for i in 0..with.len()
        invariant
            at + with@.len() <= len,
            bytes@.len() == before.len() == len,
            forall|j: int| 0 <= j < i ==> bytes@[at + j] == with@[j],
            forall|j: int| 0 <= j < at ==> bytes@[j] == before[j],
            forall|j: int| at + i <= j < len ==> bytes@[j] == before[j],
    {
        bytes.set(at + i, with[i]);
    }
}

/// What the decoder of an SSRC had for a voice tick.
#[derive(Clone, Copy, Debug, PartialEq, Eq, Structural)]
pub enum Polled {
    /// Audio.
    Audio,
    /// Nothing.
    Nothing,
    /// An error.
    Failed,
}

/// Who speaks at a voice tick, and who is silent.
#[derive(Debug)]
pub struct VoiceTick {
    pub speaking: HashSet<u32>,
    pub silent: HashSet<u32>,
}

/// Whether a decoder had audio.
pub open spec fn speaks(polled: Seq<(u32, Polled)>, ssrc: u32) -> bool {
    polled.contains((ssrc, Polled::Audio))
}

/// Whether the user of an SSRC is known to have left.
pub open spec fn has_left(decoders: Map<u32, DecoderLife>, ssrc: u32) -> bool {
    decoders.contains_key(ssrc) && decoders[ssrc].disconnected
}

/// Whether a decoder had no audio: it failed, or it had nothing and its user
/// has not left.
pub open spec fn is_silent(
    decoders: Map<u32, DecoderLife>,
    polled: Seq<(u32, Polled)>,
    ssrc: u32,
) -> bool {
    polled.contains((ssrc, Polled::Failed)) || polled.contains((ssrc, Polled::Nothing))
        && !has_left(decoders, ssrc)
}

/// How many decoders failed.
pub open spec fn failures(polled: Seq<(u32, Polled)>) -> nat
    decreases polled.len(),
{
    if polled.len() == 0 {
        0
    } else {
        failures(polled.drop_last()) + if polled.last().1 == Polled::Failed {
            1nat
        } else {
            0
        }
    }
}

/// The decoders that are left after a cleanup. Those of users who have left are
/// kept for a while longer; of the others, those go whose time is up.
pub open spec fn kept_decoders(
    decoders: Map<u32, DecoderLife>,
    left: Set<u32>,
    now: u64,
) -> Map<u32, DecoderLife> {
    Map::new(
        |ssrc: u32|
            decoders.contains_key(ssrc) && (left.contains(ssrc) || decoders[ssrc].prune_time > now),
        |ssrc: u32|
            if left.contains(ssrc) {
                DecoderLife {
                    prune_time: (now + DISCONNECT_GRACE) as u64,
                    disconnected: true,
                }
            } else {
                decoders[ssrc]
            },
    )
}

/// Whether what was counted is due to be reported.
pub open spec fn report_due(m: UdpRxModel, now: u64) -> bool {
    now - m.last_stats_report >= STATS_INTERVAL
}

/// What a cleanup did.
#[derive(Debug)]
pub struct Cleanup {
    /// The SSRCs whose decoders go.
    pub removed: Vec<u32>,
    /// What was counted since the last report, where one is due, and the number
    /// of decoders that are left.
    pub report: Option<(UdpRxStats, usize)>,
}

impl UdpRx {
    /// Takes over a configuration, and says whether the decoders have to be
    /// reconfigured.
    pub fn set_config(&mut self, config: RxConfig) -> (coder_changed: bool)
        ensures
            coder_changed == (old(self)@.config.decode_channels != config.decode_channels
                || old(self)@.config.decode_sample_rate != config.decode_sample_rate),
            final(self)@ == (UdpRxModel { config, ..old(self)@ }),
    {
        let coder_changed = self.config.decode_channels != config.decode_channels
            || self.config.decode_sample_rate != config.decode_sample_rate;
        self.config = config;
        coder_changed
    }

    /// Notes how long the decoder of an SSRC is to be kept, once it has been
    /// given a packet; the SSRC may be new.
    pub fn refresh_decoder(&mut self, ssrc: u32, prune_time: u64)
        ensures
            final(self)@ == (UdpRxModel {
                decoders: old(self)@.decoders.insert(
                    ssrc,
                    DecoderLife { prune_time, disconnected: has_left(old(self)@.decoders, ssrc) },
                ),
                ..old(self)@
            }),
    {
        let disconnected = self.user_has_left(ssrc);
        self.decoder_map.insert(ssrc, DecoderLife { prune_time, disconnected });
    }

    /// Whether the user of an SSRC is known to have left.
    fn user_has_left(&self, ssrc: u32) -> (left: bool)
        ensures
            left == has_left(self@.decoders, ssrc),
    {
        match self.decoder_map.get(&ssrc) {
            Some(life) => life.disconnected,
            None => false,
        }
    }

    /// Makes up a voice tick from what the decoders had for it, and plans the
    /// next one.
    pub fn voice_tick(&mut self, polled: &Vec<(u32, Polled)>) -> (tick: VoiceTick)
        requires
            old(self)@.playout_time + TIMESTEP_LENGTH <= u64::MAX,
        ensures
            forall|ssrc: u32| #[trigger] tick.speaking@.contains(ssrc) == speaks(polled@, ssrc),
            forall|ssrc: u32| #[trigger]
                tick.silent@.contains(ssrc) == is_silent(old(self)@.decoders, polled@, ssrc),
            final(self)@ == (UdpRxModel {
                stats: UdpRxStats {
                    decode_errors: counted(old(self)@.stats.decode_errors, failures(polled@)),
                    ..old(self)@.stats
                },
                playout_time: (old(self)@.playout_time + TIMESTEP_LENGTH) as u64,
                ..old(self)@
            }),
            final(self)@.playout_time == old(self)@.playout_time + 20_000_000,
    {
        let ghost m = self@;
        let mut tick = VoiceTick { speaking: HashSet::new(), silent: HashSet::new() };
        for i in 0..polled.len()
            invariant
                forall|ssrc: u32| #[trigger]
                    tick.speaking@.contains(ssrc) == speaks(polled@.take(i as int), ssrc),
                forall|ssrc: u32| #[trigger]
                    tick.silent@.contains(ssrc) == is_silent(
                        m.decoders,
                        polled@.take(i as int),
                        ssrc,
                    ),
                self@ == (UdpRxModel {
                    stats: UdpRxStats {
                        decode_errors: counted(
                            m.stats.decode_errors,
                            failures(polled@.take(i as int)),
                        ),
                        ..m.stats
                    },
                    ..m
                }),
        {
            let (ssrc, outcome) = polled[i];
            proof {
                assert(polled@.take(i + 1) == polled@.take(i as int).push(polled@[i as int]));
                assert(polled@.take(i + 1).drop_last() == polled@.take(i as int));
                lemma_push_contains(polled@.take(i as int), polled@[i as int]);
            }
            match outcome {
                Polled::Audio => {
                    tick.speaking.insert(ssrc);
                },
                Polled::Nothing => {
                    if !self.user_has_left(ssrc) {
                        tick.silent.insert(ssrc);
                    }
                },
                Polled::Failed => {
                    self.stats.decode_errors = self.stats.decode_errors.saturating_add(1);
                    tick.silent.insert(ssrc);
                },
            }
        }
        assert(polled@.take(polled@.len() as int) == polled@);
        self.playout_time = self.playout_time + TIMESTEP_LENGTH;
        tick
    }

    /// Cleans up: keeps the decoders of users who have left for a while longer,
    /// removes those whose time is up, reports what was counted where that is
    /// due, and plans the next cleanup.
    pub fn cleanup(&mut self, tracker: &mut SsrcTracker, now: u64) -> (done: Cleanup)
        requires
            now + CLEANUP_INTERVAL <= u64::MAX,
        ensures
            final(tracker)@ == (TrackerModel {
                ssrcs: old(tracker)@.ssrcs.remove_keys(old(tracker)@.disconnected),
                disconnected: Set::empty(),
            }),
            done.removed@.no_duplicates(),
            forall|ssrc: u32| #[trigger]
                done.removed@.contains(ssrc) == (old(self)@.decoders.contains_key(ssrc)
                    && !final(self)@.decoders.contains_key(ssrc)),
            done.report == (if report_due(old(self)@, now) {
                Some((old(self)@.stats, final(self)@.decoders.len() as usize))
            } else {
                None
            }),
            final(self)@ == (UdpRxModel {
                decoders: kept_decoders(old(self)@.decoders, old(tracker)@.left(), now),
                stats: if report_due(old(self)@, now) {
                    UdpRxStats::zero()
                } else {
                    old(self)@.stats
                },
                last_stats_report: if report_due(old(self)@, now) {
                    now
                } else {
                    old(self)@.last_stats_report
                },
                cleanup_time: (now + CLEANUP_INTERVAL) as u64,
                ..old(self)@
            }),
            final(self)@.cleanup_time == now + 5_000_000_000,
    {
        let ghost m = self@;
        let left = tracker.take_disconnected();
        self.mark_left(&left, now);
        let removed = self.prune(now);
        assert(self@.decoders =~= kept_decoders(m.decoders, left@, now));
        let mut report: Option<(UdpRxStats, usize)> = None;
        if now >= self.last_stats_report && now - self.last_stats_report >= STATS_INTERVAL {
            report = Some((self.stats, self.decoder_map.len()));
            self.stats = UdpRxStats::default();
            self.last_stats_report = now;
        }
        self.cleanup_time = now + CLEANUP_INTERVAL;
        Cleanup { removed, report }
    }

    /// Sets the time at which the decoders of users who have left go.
    fn mark_left(&mut self, left: &HashSet<u32>, now: u64)
        requires
            now + DISCONNECT_GRACE <= u64::MAX,
        ensures
            final(self)@ == (UdpRxModel { decoders: final(self)@.decoders, ..old(self)@ }),
            final(self)@.decoders.dom() == old(self)@.decoders.dom(),
            forall|ssrc: u32| #[trigger]
                final(self)@.decoders.contains_key(ssrc) ==> final(self)@.decoders[ssrc] == (
                if left@.contains(ssrc) {
                    DecoderLife {
                        prune_time: (now + DISCONNECT_GRACE) as u64,
                        disconnected: true,
                    }
                } else {
                    old(self)@.decoders[ssrc]
                }),
    {
        let ghost m = self@;
        let ghost ssrcs = left.iter().remaining().unref();
        let life = DecoderLife { prune_time: now + DISCONNECT_GRACE, disconnected: true };
        for ssrc in it: left.iter()
            invariant
                it.seq().unref() == ssrcs,
                ssrcs.to_set() == left@,
                self@ == (UdpRxModel { decoders: self@.decoders, ..m }),
                self@.decoders.dom() == m.decoders.dom(),
                forall|s: u32| #[trigger]
                    self@.decoders.contains_key(s) ==> self@.decoders[s] == m.decoders[s]
                        || left@.contains(s) && self@.decoders[s] == life,
                forall|i: int|
                    0 <= i < it.index() && self@.decoders.contains_key(#[trigger] ssrcs[i])
                        ==> self@.decoders[ssrcs[i]] == life,
        {
            assert(ssrcs.contains(ssrcs[it.index()]));
            if self.decoder_map.contains_key(ssrc) {
                self.decoder_map.insert(*ssrc, life);
            }
        }
        assert forall|s: u32| left@.contains(s) && self@.decoders.contains_key(s) implies
            self@.decoders[s] == life by {
            assert(ssrcs.contains(s));
        }
    }

    /// Removes the decoders whose time is up, and gives their SSRCs.
    fn prune(&mut self, now: u64) -> (removed: Vec<u32>)
        ensures
            final(self)@ == (UdpRxModel { decoders: final(self)@.decoders, ..old(self)@ }),
            final(self)@.decoders == Map::new(
                |ssrc: u32|
                    old(self)@.decoders.contains_key(ssrc) && old(self)@.decoders[ssrc].prune_time
                        > now,
                |ssrc: u32| old(self)@.decoders[ssrc],
            ),
            removed@.no_duplicates(),
            forall|ssrc: u32| #[trigger]
                removed@.contains(ssrc) == (old(self)@.decoders.contains_key(ssrc)
                    && old(self)@.decoders[ssrc].prune_time <= now),
    {
        let ghost m = self@;
        let mut removed: Vec<u32> = Vec::new();
        for entry in it: self.decoder_map.iter()
            invariant
                self@ == m,
                it.seq().no_duplicates(),
                removed@.no_duplicates(),
                forall|s: u32| #[trigger]
                    removed@.contains(s) ==> m.decoders[s].prune_time <= now && exists|i: int|
                        0 <= i < it.index() && *(#[trigger] it.seq()[i]).0 == s,
                forall|i: int|
                    0 <= i < it.index() && (*(#[trigger] it.seq()[i]).1).prune_time <= now
                        ==> removed@.contains(*it.seq()[i].0),
                forall|i: int|
                    0 <= i < it.seq().len() ==> m.decoders.contains_key(
                        *(#[trigger] it.seq()[i]).0,
                    ) && m.decoders[*it.seq()[i].0] == *it.seq()[i].1,
                forall|s: u32| #[trigger]
                    m.decoders.contains_key(s) ==> it.seq().contains((&s, &m.decoders[s])),
        {
            let (ssrc, life) = entry;
            if life.prune_time <= now {
                assert(!removed@.contains(*ssrc)) by {
                    if removed@.contains(*ssrc) {
                        let i = choose|i: int|
                            0 <= i < it.index() && *(#[trigger] it.seq()[i]).0 == *ssrc;
                        assert(it.seq()[i] == it.seq()[it.index()]);
                    }
                }
                proof {
                    lemma_push_contains(removed@, *ssrc);
                }
                removed.push(*ssrc);
            }
        }
        for i in 0..removed.len()
            invariant
                self@ == (UdpRxModel { decoders: self@.decoders, ..m }),
                forall|s: u32| #[trigger]
                    self@.decoders.contains_key(s) == (m.decoders.contains_key(s)
                        && !removed@.take(i as int).contains(s)),
                forall|s: u32| #[trigger]
                    self@.decoders.contains_key(s) ==> self@.decoders[s] == m.decoders[s],
        {
            let ssrc = removed[i];
            proof {
                assert(removed@.take(i + 1) == removed@.take(i as int).push(ssrc));
                lemma_push_contains(removed@.take(i as int), ssrc);
            }
            self.decoder_map.remove(&ssrc);
        }
        assert(removed@.take(removed@.len() as int) == removed@);
        removed
    }
}

/// What a sequence contains after one more is pushed.
proof fn lemma_push_contains<A>(items: Seq<A>, item: A)
    ensures
        forall|x: A| #[trigger] items.push(item).contains(x) == (items.contains(x) || x == item),
{
    assert forall|x: A| #[trigger] items.push(item).contains(x) == (items.contains(x) || x
        == item) by {
        assert(items.push(item)[items.len() as int] == item);
        if items.contains(x) {
            let i = choose|i: int| 0 <= i < items.len() && items[i] == x;
            assert(items.push(item)[i] == x);
        }
    }
}

} // verus!
