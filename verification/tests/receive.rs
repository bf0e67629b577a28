use dave_gateway::rtp::RtpHeader;
use dave_gateway::ssrc::SsrcTracker;
use dave_gateway::udp_rx::{
    DecoderLife, Polled, Received, RtpBody, RxConfig, UdpRx, UdpRxStats, CLEANUP_INTERVAL,
    DISCONNECT_GRACE, STATS_INTERVAL, TIMESTEP_LENGTH,
};
use dave_gateway::ws_dave::DaveState;

fn config() -> RxConfig {
    RxConfig { should_decrypt: true, decode_channels: 2, decode_sample_rate: 48_000 }
}

fn rx() -> UdpRx {
    UdpRx::new(8, 16, config(), 1_000)
}

fn rtp_packet(first: u8, second: u8, ssrc: u32, rest: &[u8]) -> Vec<u8> {
    let mut packet = vec![first, second, 0, 1, 0, 0, 0, 2];
    packet.extend_from_slice(&ssrc.to_be_bytes());
    packet.extend_from_slice(rest);
    packet
}

fn header(payload_len: usize) -> RtpHeader {
    RtpHeader { version: 2, payload_type: 120, ssrc: 77, payload_len }
}

#[test]
fn a_new_receive_task() {
    let rx = rx();
    assert!(rx.decoder_map.is_empty());
    assert_eq!(rx.stats, UdpRxStats::default());
    assert_eq!(rx.last_stats_report, 1_000);
    assert_eq!(rx.cleanup_time, 1_000);
    assert_eq!(rx.playout_time, 1_000 + TIMESTEP_LENGTH);
}

#[test]
fn audio_is_recognised() {
    let mut rx = rx();
    let packet = rtp_packet(0x80, 0x78, 0x01020304, &[1, 2, 3]);
    let expected = RtpHeader { version: 2, payload_type: 120, ssrc: 0x01020304, payload_len: 3 };
    assert_eq!(rx.receive(&packet), Received::Rtp { header: expected, decrypt: true });
    assert_eq!(rx.stats.udp_packets, 1);
    assert_eq!(rx.stats.rtp_packets, 1);
}

#[test]
fn the_marker_bit_is_no_part_of_the_payload_type() {
    let mut rx = rx();
    let packet = rtp_packet(0x80, 0xF8, 5, &[]);
    assert_eq!(
        rx.receive(&packet),
        Received::Rtp {
            header: RtpHeader { version: 2, payload_type: 120, ssrc: 5, payload_len: 0 },
            decrypt: true,
        }
    );
}

#[test]
fn the_payload_starts_behind_the_counted_sources() {
    let mut rx = rx();
    let verdict = rx.receive(&rtp_packet(0x83, 0x78, 5, &[1, 2, 3, 4, 5]));
    assert!(matches!(verdict, Received::Rtp { header, .. } if header.payload_len == 2));
    let verdict = rx.receive(&rtp_packet(0x8F, 0x78, 5, &[1, 2, 3, 4, 5]));
    assert!(matches!(verdict, Received::Rtp { header, .. } if header.payload_len == 0));
    let verdict = rx.receive(&rtp_packet(0x85, 0x78, 5, &[1, 2, 3, 4, 5]));
    assert!(matches!(verdict, Received::Rtp { header, .. } if header.payload_len == 0));
}

#[test]
fn illegal_rtp_is_dropped() {
    let mut rx = rx();
    assert_eq!(rx.receive(&rtp_packet(0x40, 0x78, 5, &[])), Received::IllegalRtp);
    assert_eq!(rx.receive(&rtp_packet(0x80, 0x60, 5, &[])), Received::IllegalRtp);
    assert_eq!(rx.stats.rtp_packets, 2);
    assert_eq!(rx.stats.udp_packets, 2);
}

#[test]
fn rtcp_is_recognised() {
    let mut rx = rx();
    assert_eq!(rx.receive(&[0x80, 200, 0, 0, 0, 0, 0, 0]), Received::Rtcp { decrypt: true });
    assert_eq!(rx.receive(&[0x80, 201, 0, 0, 0, 0, 0, 0]), Received::Rtcp { decrypt: true });
    assert_eq!(rx.receive(&[0x80, 213]), Received::Rtcp { decrypt: true });
    assert_eq!(rx.receive(&[0x80, 194]), Received::Rtcp { decrypt: true });
    rx.config.should_decrypt = false;
    assert_eq!(rx.receive(&[0x80, 195]), Received::Rtcp { decrypt: false });
    assert_eq!(rx.stats.rtcp_packets, 5);
}

#[test]
fn every_packet_type_byte() {
    for packet_type in 0..=255u8 {
        let mut rx = rx();
        let verdict = rx.receive(&rtp_packet(0x80, packet_type, 5, &[]));
        let is_rtcp = matches!(packet_type, 194 | 195 | 200..=213);
        assert_eq!(matches!(verdict, Received::Rtcp { .. }), is_rtcp, "{packet_type}");
        let is_audio = !is_rtcp && packet_type % 128 == 120;
        assert_eq!(matches!(verdict, Received::Rtp { .. }), is_audio, "{packet_type}");
    }
}

#[test]
fn short_packets_are_dropped() {
    let mut rx = rx();
    assert_eq!(rx.receive(&[]), Received::TooSmall);
    assert_eq!(rx.receive(&[0x80]), Received::TooSmall);
    assert_eq!(rx.receive(&[0x80, 0x78]), Received::FailedParse);
    assert_eq!(rx.receive(&rtp_packet(0x80, 0x78, 1, &[])[..11]), Received::FailedParse);
    assert_eq!(rx.receive(&[0x80, 200, 0, 0, 0, 0, 0]), Received::FailedParse);
    assert_eq!(rx.stats.demux_too_small, 2);
    assert_eq!(rx.stats.demux_fail_parse, 3);
    assert_eq!(rx.stats.udp_packets, 5);
}

#[test]
fn packets_are_accounted_for() {
    let mut rx = rx();
    let packets: Vec<Vec<u8>> = vec![
        rtp_packet(0x80, 0x78, 1, &[1]),
        rtp_packet(0x00, 0x00, 1, &[]),
        vec![0x80, 202],
        vec![1],
        vec![1, 2, 3],
    ];
    for packet in &packets {
        rx.receive(packet);
    }
    let stats = rx.stats;
    assert_eq!(stats.udp_packets, 5);
    assert_eq!(
        stats.udp_packets,
        stats.rtp_packets + stats.rtcp_packets + stats.demux_fail_parse + stats.demux_too_small
    );
}

#[test]
fn full_counters_stay_full() {
    let mut rx = rx();
    rx.stats.udp_packets = u64::MAX;
    rx.stats.demux_too_small = u64::MAX - 1;
    rx.receive(&[]);
    rx.receive(&[]);
    assert_eq!(rx.stats.udp_packets, u64::MAX);
    assert_eq!(rx.stats.demux_too_small, u64::MAX);
}

#[test]
fn the_body_after_transport_decryption() {
    let rx = rx();
    assert_eq!(rx.body_of(Some((3, 4))), RtpBody { start: 3, tail: 4, decrypted: true });
    assert_eq!(rx.body_of(None), RtpBody { start: 8, tail: 16, decrypted: false });
    assert_eq!(rx.process_rtcp(Some((3, 4))), (3, 4));
    assert_eq!(rx.process_rtcp(None), (8, 16));
}

#[test]
fn a_plaintext_is_put_in_place() {
    let mut rx = rx();
    let mut packet = rtp_packet(0x80, 0x78, 77, &[9, 10, 11, 12, 13, 14]);
    let before = packet.clone();
    let body = RtpBody { start: 1, tail: 1, decrypted: true };
    let opened = rx.apply_plaintext(&mut packet, 6, body, true, Some(vec![1, 2]));
    assert_eq!(opened, RtpBody { start: 1, tail: 3, decrypted: true });
    assert_eq!(packet[12..], [9, 1, 2, 12, 13, 14]);
    assert_eq!(packet[..12], before[..12]);
    assert_eq!(rx.stats.dave_decrypt_success, 1);
    assert_eq!(opened.start + 2 + opened.tail, 6);
}

#[test]
fn a_plaintext_that_just_fits() {
    let mut rx = rx();
    let mut packet = vec![0, 0, 5, 6, 7];
    let body = RtpBody { start: 1, tail: 9, decrypted: false };
    let opened = rx.apply_plaintext(&mut packet, 3, body, true, Some(vec![1, 2]));
    assert_eq!(opened, RtpBody { start: 1, tail: 0, decrypted: true });
    assert_eq!(packet, vec![0, 0, 5, 1, 2]);
}

#[test]
fn a_plaintext_that_does_not_fit_is_ignored() {
    let mut rx = rx();
    let mut packet = vec![0, 0, 5, 6, 7];
    let body = RtpBody { start: 2, tail: 0, decrypted: false };
    let opened = rx.apply_plaintext(&mut packet, 3, body, true, Some(vec![1, 2]));
    assert_eq!(opened, body);
    assert_eq!(packet, vec![0, 0, 5, 6, 7]);
    let far = RtpBody { start: usize::MAX, tail: 0, decrypted: false };
    assert_eq!(rx.apply_plaintext(&mut packet, 3, far, true, Some(vec![1])), far);
    assert_eq!(rx.stats, UdpRxStats::default());
}

#[test]
fn failed_decryption_is_counted() {
    let mut rx = rx();
    let mut packet = vec![1, 2, 3];
    let body = RtpBody { start: 0, tail: 0, decrypted: false };
    assert_eq!(rx.apply_plaintext(&mut packet, 3, body, true, None), body);
    assert_eq!(rx.apply_plaintext(&mut packet, 3, body, false, None), body);
    assert_eq!(rx.apply_plaintext(&mut packet, 3, body, false, None), body);
    assert_eq!(packet, vec![1, 2, 3]);
    assert_eq!(rx.stats.dave_decrypt_fail_ready, 1);
    assert_eq!(rx.stats.dave_decrypt_skip_not_ready, 2);
}

#[test]
fn packets_pass_untouched_until_dave_is_ready() {
    let mut rx = rx();
    let mut tracker = SsrcTracker::default();
    tracker.announce(4, 77);
    let mut dave = DaveState::default();
    let mut packet = rtp_packet(0x80, 0x78, 77, &[1, 2, 3]);
    let before = packet.clone();
    let outcome = rx.process_rtp(&header(3), &mut packet, Some((1, 0)), &tracker, &mut dave);
    assert_eq!(outcome.user_id, Some(4));
    assert_eq!(outcome.body, RtpBody { start: 1, tail: 0, decrypted: true });
    assert_eq!(packet, before);
    assert_eq!(rx.stats.dave_decrypt_skip_not_ready, 1);
}

#[test]
fn packets_of_nobody_are_not_given_to_dave() {
    let mut rx = rx();
    let tracker = SsrcTracker::default();
    let mut dave = DaveState::default();
    let mut packet = rtp_packet(0x80, 0x78, 77, &[1, 2, 3]);
    let outcome = rx.process_rtp(&header(3), &mut packet, None, &tracker, &mut dave);
    assert_eq!(outcome.user_id, None);
    assert_eq!(outcome.body, RtpBody { start: 8, tail: 16, decrypted: false });
    assert_eq!(rx.stats, UdpRxStats::default());
}

#[test]
fn payloads_that_are_too_short_are_not_given_to_dave() {
    let mut rx = rx();
    let mut tracker = SsrcTracker::default();
    tracker.announce(4, 77);
    let mut dave = DaveState::default();
    let mut packet = rtp_packet(0x80, 0x78, 77, &[1, 2, 3]);
    rx.process_rtp(&header(3), &mut packet, Some((2, 2)), &tracker, &mut dave);
    rx.process_rtp(&header(3), &mut packet, Some((usize::MAX, 1)), &tracker, &mut dave);
    rx.process_rtp(&header(0), &mut packet, Some((0, 0)), &tracker, &mut dave);
    assert_eq!(rx.stats, UdpRxStats::default());
    rx.process_rtp(&header(3), &mut packet, Some((2, 1)), &tracker, &mut dave);
    assert_eq!(rx.stats.dave_decrypt_skip_not_ready, 1);
}

#[test]
fn reconfiguring_the_decoders() {
    let mut rx = rx();
    assert!(!rx.set_config(config()));
    assert!(!rx.set_config(RxConfig { should_decrypt: false, ..config() }));
    assert!(!rx.config.should_decrypt);
    assert!(rx.set_config(RxConfig { decode_channels: 1, ..config() }));
    assert!(rx.set_config(RxConfig { decode_sample_rate: 8_000, ..config() }));
    assert_eq!(rx.config.decode_sample_rate, 8_000);
    assert_eq!(rx.config.decode_channels, 2);
}

#[test]
fn refreshing_a_decoder() {
    let mut rx = rx();
    rx.refresh_decoder(5, 100);
    assert_eq!(rx.decoder_map[&5], DecoderLife { prune_time: 100, disconnected: false });
    rx.decoder_map.insert(6, DecoderLife { prune_time: 1, disconnected: true });
    rx.refresh_decoder(6, 200);
    assert_eq!(rx.decoder_map[&6], DecoderLife { prune_time: 200, disconnected: true });
}

#[test]
fn a_voice_tick() {
    let mut rx = rx();
    rx.refresh_decoder(1, 100);
    rx.refresh_decoder(2, 100);
    rx.refresh_decoder(3, 100);
    rx.decoder_map.insert(4, DecoderLife { prune_time: 100, disconnected: true });
    rx.decoder_map.insert(5, DecoderLife { prune_time: 100, disconnected: true });
    rx.decoder_map.insert(6, DecoderLife { prune_time: 100, disconnected: true });
    let tick = rx.voice_tick(&vec![
        (1, Polled::Audio),
        (2, Polled::Nothing),
        (3, Polled::Failed),
        (4, Polled::Nothing),
        (5, Polled::Failed),
        (6, Polled::Audio),
    ]);
    let mut speaking: Vec<u32> = tick.speaking.iter().copied().collect();
    speaking.sort();
    let mut silent: Vec<u32> = tick.silent.iter().copied().collect();
    silent.sort();
    assert_eq!(speaking, vec![1, 6]);
    assert_eq!(silent, vec![2, 3, 5]);
    assert_eq!(rx.stats.decode_errors, 2);
    assert_eq!(rx.playout_time, 1_000 + 2 * TIMESTEP_LENGTH);
}

#[test]
fn departed_decoders_linger() {
    let mut rx = rx();
    let mut tracker = SsrcTracker::default();
    tracker.announce(10, 1);
    tracker.announce(11, 2);
    rx.refresh_decoder(1, 9_000_000_000);
    rx.refresh_decoder(2, 9_000_000_000);
    tracker.disconnect(10);
    tracker.disconnect(99);

    let now = 2_000_000_000;
    let done = rx.cleanup(&mut tracker, now);
    assert!(done.removed.is_empty());
    assert!(done.report.is_none());
    assert_eq!(
        rx.decoder_map[&1],
        DecoderLife { prune_time: now + DISCONNECT_GRACE, disconnected: true }
    );
    assert!(!rx.decoder_map[&2].disconnected);
    assert!(tracker.disconnected_users.is_empty());
    assert_eq!(tracker.sender_of(1), None);
    assert_eq!(tracker.sender_of(2), Some(11));
    assert_eq!(rx.cleanup_time, now + CLEANUP_INTERVAL);

    let done = rx.cleanup(&mut tracker, now + DISCONNECT_GRACE - 1);
    assert!(done.removed.is_empty());
    let done = rx.cleanup(&mut tracker, now + DISCONNECT_GRACE);
    assert_eq!(done.removed, vec![1]);
    assert!(!rx.decoder_map.contains_key(&1));
    assert!(rx.decoder_map.contains_key(&2));
}

#[test]
fn decoders_go_when_their_time_is_up() {
    let mut rx = rx();
    let mut tracker = SsrcTracker::default();
    rx.refresh_decoder(1, 5_000);
    rx.refresh_decoder(2, 5_001);
    rx.refresh_decoder(3, 4_000);
    let mut removed = rx.cleanup(&mut tracker, 5_000).removed;
    removed.sort();
    assert_eq!(removed, vec![1, 3]);
    assert_eq!(rx.decoder_map.len(), 1);
    assert!(rx.cleanup(&mut tracker, 5_000).removed.is_empty());
}

#[test]
fn statistics_are_reported_and_reset() {
    let mut rx = rx();
    let mut tracker = SsrcTracker::default();
    rx.refresh_decoder(1, u64::MAX);
    rx.receive(&[]);
    assert!(rx.cleanup(&mut tracker, 999).report.is_none());
    assert!(rx.cleanup(&mut tracker, 999 + STATS_INTERVAL).report.is_none());
    let due = 1_000 + STATS_INTERVAL;
    let (stats, decoders) = rx.cleanup(&mut tracker, due).report.expect("a report");
    assert_eq!(stats.udp_packets, 1);
    assert_eq!(stats.demux_too_small, 1);
    assert_eq!(decoders, 1);
    assert_eq!(rx.stats, UdpRxStats::default());
    assert_eq!(rx.last_stats_report, due);
    assert!(rx.cleanup(&mut tracker, due + STATS_INTERVAL - 1).report.is_none());
}

#[test]
fn senders_by_ssrc() {
    let mut tracker = SsrcTracker::default();
    assert_eq!(tracker.sender_of(1), None);
    tracker.announce(10, 1);
    tracker.announce(11, 2);
    assert_eq!(tracker.sender_of(1), Some(10));
    tracker.announce(10, 3);
    assert_eq!(tracker.sender_of(1), None);
    assert_eq!(tracker.sender_of(3), Some(10));
    tracker.announce(12, 3);
    let sender = tracker.sender_of(3);
    assert!(sender == Some(10) || sender == Some(12));
}
