use scream_receiver::buffer::JitterBuffer;
use scream_receiver::convert::MultichannelSample;
use scream_receiver::engine::Config;
use scream_receiver::engine::OutputMode;
use scream_receiver::engine::get_output_mode;
use scream_receiver::engine::get_sample;
use scream_receiver::session::PacketOutcome;
use scream_receiver::session::SessionManager;

fn sample_of(value: i32) -> MultichannelSample {
    let mut s: MultichannelSample = [0; 10];
    s[0] = value;
    s
}

fn default_config() -> Config {
    Config {
        samples_buffered: 2048,
        slower_playback_threshold: 500,
        faster_playback_threshold: 2000,
        normal_playback_threshold: 1100,
    }
}

#[test]
fn fifo_order_within_capacity() {
    let mut buffer = JitterBuffer::new(4);
    for value in 1..=4 {
        assert!(buffer.push(sample_of(value)).is_ok());
    }
    assert_eq!(buffer.len(), 4);
    for value in 1..=4 {
        assert_eq!(buffer.pop(), Some(sample_of(value)));
    }
    assert_eq!(buffer.pop(), None);
}

#[test]
fn push_beyond_capacity_reports_full() {
    let mut buffer = JitterBuffer::new(3);
    for value in 1..=3 {
        assert!(buffer.push(sample_of(value)).is_ok());
    }
    assert!(buffer.push(sample_of(99)).is_err());
    assert_eq!(buffer.len(), 3);
    assert_eq!(buffer.pop(), Some(sample_of(1)));
    assert_eq!(buffer.pop(), Some(sample_of(2)));
    assert_eq!(buffer.pop(), Some(sample_of(3)));
    assert_eq!(buffer.pop(), None);
}

#[test]
fn discard_drops_oldest() {
    let mut buffer = JitterBuffer::new(5);
    for value in 1..=4 {
        assert!(buffer.push(sample_of(value)).is_ok());
    }
    buffer.discard(2);
    assert_eq!(buffer.len(), 2);
    assert_eq!(buffer.pop(), Some(sample_of(3)));
    buffer.discard(10);
    assert_eq!(buffer.len(), 0);
    assert_eq!(buffer.pop(), None);
}

#[test]
fn mode_transitions_at_thresholds() {
    let cfg = default_config();
    assert_eq!(get_output_mode(OutputMode::ChuggingAlong, 100, 0, &cfg), OutputMode::Stopped);
    assert_eq!(get_output_mode(OutputMode::ChuggingAlong, 100, 40, &cfg), OutputMode::PlaySlower);
    assert_eq!(get_output_mode(OutputMode::ChuggingAlong, 100, 250, &cfg), OutputMode::PlayFaster);
    assert_eq!(
        get_output_mode(OutputMode::ChuggingAlong, 100, 105, &cfg),
        OutputMode::ChuggingAlong
    );
    assert_eq!(get_output_mode(OutputMode::Stopped, 100, 105, &cfg), OutputMode::ChuggingAlong);
    // at half the request a stopped engine neither starts nor slows further
    assert_eq!(get_output_mode(OutputMode::Stopped, 100, 50, &cfg), OutputMode::Stopped);
}

#[test]
fn hysteresis_keeps_current_mode() {
    let cfg = default_config();
    // 150 sits between the band's top (110) and the fast threshold (200):
    // whatever mode the engine is in stays.
    assert_eq!(get_output_mode(OutputMode::PlayFaster, 100, 150, &cfg), OutputMode::PlayFaster);
    assert_eq!(
        get_output_mode(OutputMode::ChuggingAlong, 100, 150, &cfg),
        OutputMode::ChuggingAlong
    );
    // 55 sits between the slow threshold (50) and the band's bottom (90).
    assert_eq!(get_output_mode(OutputMode::PlaySlower, 100, 55, &cfg), OutputMode::PlaySlower);
}

#[test]
fn stopped_re_emits_last_sample() {
    let mut buffer = JitterBuffer::new(4);
    assert!(buffer.push(sample_of(7)).is_ok());
    let last = sample_of(42);
    let got = get_sample(OutputMode::Stopped, &mut buffer, &last, 1);
    assert_eq!(got.ok(), Some(last));
    assert_eq!(buffer.len(), 1);
}

#[test]
fn chugging_pops_one_and_reports_underrun() {
    let mut buffer = JitterBuffer::new(4);
    assert!(buffer.push(sample_of(7)).is_ok());
    let last = sample_of(42);
    let got = get_sample(OutputMode::ChuggingAlong, &mut buffer, &last, 1);
    assert_eq!(got.ok(), Some(sample_of(7)));
    let empty = get_sample(OutputMode::ChuggingAlong, &mut buffer, &last, 2);
    assert!(empty.is_err());
}

#[test]
fn play_faster_drops_one_extra() {
    let mut buffer = JitterBuffer::new(4);
    for value in 1..=3 {
        assert!(buffer.push(sample_of(value)).is_ok());
    }
    let last = sample_of(42);
    let got = get_sample(OutputMode::PlayFaster, &mut buffer, &last, 1);
    assert_eq!(got.ok(), Some(sample_of(2)));
    assert_eq!(buffer.len(), 1);
}

#[test]
fn play_slower_alternates_by_parity() {
    let mut buffer = JitterBuffer::new(8);
    for value in 1..=4 {
        assert!(buffer.push(sample_of(value)).is_ok());
    }
    let last = sample_of(42);
    let mut held: usize = 0;
    let mut popped: usize = 0;
    let mut emitted: Vec<MultichannelSample> = Vec::new();
    for iteration in 1..=4u64 {
        let got = get_sample(OutputMode::PlaySlower, &mut buffer, &last, iteration).unwrap();
        if got == last {
            held += 1;
        } else {
            popped += 1;
        }
        emitted.push(got);
    }
    assert_eq!(held, 2);
    assert_eq!(popped, 2);
    // strict alternation: odd iterations pop fresh samples, even ones hold
    assert_eq!(emitted[0], sample_of(1));
    assert_eq!(emitted[1], last);
    assert_eq!(emitted[2], sample_of(2));
    assert_eq!(emitted[3], last);
    assert_eq!(buffer.len(), 2);
}

/// A packet of `frames` stereo 16-bit frames; channel values count up from
/// `first`.
fn packet_16_bit(rate_byte: u8, frames: usize, first: i16) -> Vec<u8> {
    let mut p: Vec<u8> = vec![rate_byte, 16, 0, 0, 0];
    for k in 0..frames {
        let left = (first + 2 * k as i16).to_le_bytes();
        let right = (first + 2 * k as i16 + 1).to_le_bytes();
        p.extend_from_slice(&left);
        p.extend_from_slice(&right);
    }
    p
}

fn small_config() -> Config {
    Config {
        samples_buffered: 1,
        slower_playback_threshold: 500,
        faster_playback_threshold: 2000,
        normal_playback_threshold: 1100,
    }
}

#[test]
fn matching_headers_keep_session_and_accumulate() {
    let mut sm = SessionManager::new(small_config());
    assert!(!sm.is_playing_now());
    let p = packet_16_bit(0x01, 2, 100);
    let first = sm.on_packet(&p);
    assert_eq!(first, PacketOutcome::Accepted { new_session: true, pushed: 2, overflowed: 0 });
    assert!(sm.is_playing_now());
    assert_eq!(sm.buffered_samples(), 2);
    let second = sm.on_packet(&p);
    assert_eq!(second, PacketOutcome::Accepted { new_session: false, pushed: 2, overflowed: 0 });
    assert_eq!(sm.buffered_samples(), 4);
}

#[test]
fn header_change_replaces_session_and_discards_buffer() {
    let mut sm = SessionManager::new(small_config());
    sm.on_packet(&packet_16_bit(0x01, 3, 0));
    assert_eq!(sm.buffered_samples(), 3);
    let changed = sm.on_packet(&packet_16_bit(0x02, 1, 0));
    assert_eq!(changed, PacketOutcome::Accepted { new_session: true, pushed: 1, overflowed: 0 });
    assert_eq!(sm.buffered_samples(), 1);
}

#[test]
fn timeout_stops_and_next_packet_starts_fresh() {
    let mut sm = SessionManager::new(small_config());
    let p = packet_16_bit(0x01, 2, 0);
    sm.on_packet(&p);
    assert!(sm.is_playing_now());
    assert!(sm.on_timeout());
    assert!(!sm.is_playing_now());
    assert_eq!(sm.buffered_samples(), 0);
    assert!(!sm.on_timeout());
    let again = sm.on_packet(&p);
    assert_eq!(again, PacketOutcome::Accepted { new_session: true, pushed: 2, overflowed: 0 });
    assert_eq!(sm.buffered_samples(), 2);
}

#[test]
fn overflowing_packet_reports_drops() {
    // capacity is ten times the one-sample target
    let mut sm = SessionManager::new(small_config());
    let first = sm.on_packet(&packet_16_bit(0x01, 8, 0));
    assert_eq!(first, PacketOutcome::Accepted { new_session: true, pushed: 8, overflowed: 0 });
    let second = sm.on_packet(&packet_16_bit(0x01, 8, 0));
    assert_eq!(second, PacketOutcome::Accepted { new_session: false, pushed: 2, overflowed: 6 });
    assert_eq!(sm.buffered_samples(), 10);
}

#[test]
fn short_and_zero_rate_packets_are_no_ops() {
    let mut sm = SessionManager::new(small_config());
    assert_eq!(sm.on_packet(&[0x01, 16, 0]), PacketOutcome::TooShort);
    assert!(!sm.is_playing_now());
    assert_eq!(sm.on_packet(&[0x00, 16, 0, 0, 0]), PacketOutcome::InvalidRate);
    assert_eq!(sm.on_packet(&[0x80, 16, 0, 0, 0]), PacketOutcome::InvalidRate);
    assert!(!sm.is_playing_now());
}

#[test]
fn render_frame_plays_and_masks_underrun() {
    let mut sm = SessionManager::new(small_config());
    assert_eq!(sm.render_frame(1), None);
    let p = packet_16_bit(0x01, 3, 10);
    sm.on_packet(&p);
    // occupancy 3 exceeds the request, so a stopped engine starts playing
    let first = sm.render_frame(1).unwrap();
    assert_eq!(first[0], 10);
    assert_eq!(first[1], 11);
    let second = sm.render_frame(1).unwrap();
    assert_eq!(second[0], 12);
    let third = sm.render_frame(1).unwrap();
    assert_eq!(third[0], 14);
    // the buffer is empty now: the engine stops and re-emits the last sample
    let held = sm.render_frame(1).unwrap();
    assert_eq!(held, third);
    assert_eq!(sm.buffered_samples(), 0);
}

#[test]
fn clear_session_forgets_header() {
    let mut sm = SessionManager::new(small_config());
    let p = packet_16_bit(0x01, 1, 0);
    sm.on_packet(&p);
    sm.clear_session();
    assert!(!sm.is_playing_now());
    let again = sm.on_packet(&p);
    assert_eq!(again, PacketOutcome::Accepted { new_session: true, pushed: 1, overflowed: 0 });
}
