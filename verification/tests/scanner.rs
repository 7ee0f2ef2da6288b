use tsdelay::packet::Packet;
use tsdelay::scan::{scan_packets, Observation, Scanner};

const VIDEO: i32 = 0;
const AUDIO: i32 = 1;

fn video(pts: i64) -> Observation {
    Observation::new(Packet::new(VIDEO, true, pts), true)
}

fn audio(pts: i64) -> Observation {
    Observation::new(Packet::new(AUDIO, true, pts), true)
}

fn broken_audio(pts: i64) -> Observation {
    Observation::new(Packet::new(AUDIO, true, pts), false)
}

fn delta(stream: i32, pts: i64) -> Observation {
    Observation::new(Packet::new(stream, false, pts), true)
}

#[test]
fn packet_accessors() {
    let packet = Packet::new(4, true, 1234);
    assert_eq!(packet.pts(), 1234);
    assert!(packet.is_keyframe(4));
    assert!(!packet.is_keyframe(5));
    assert!(!Packet::new(4, false, 1234).is_keyframe(4));
    assert_eq!(packet, Packet { stream_index: 4, keyframe: true, pts: 1234 });
}

#[test]
fn scan_captures_the_first_keyframe_of_each_stream() {
    let packets = vec![delta(VIDEO, 10), video(1000), video(2000), delta(AUDIO, 20), audio(5000), audio(6000)];
    assert_eq!(scan_packets(VIDEO, AUDIO, false, &packets).unwrap(), 4000);
}

#[test]
fn scan_takes_delivery_order_not_timestamp_order() {
    let packets = vec![audio(9000), video(3000), audio(100), video(1)];
    assert_eq!(scan_packets(VIDEO, AUDIO, false, &packets).unwrap(), 6000);
}

#[test]
fn scan_ignores_other_streams() {
    let packets = vec![
        Observation::new(Packet::new(7, true, -5), true),
        video(1000),
        Observation::new(Packet::new(9, true, 1i64 << 40), false),
        audio(1500),
    ];
    assert_eq!(scan_packets(VIDEO, AUDIO, true, &packets).unwrap(), 500);
}

#[test]
fn scan_stops_when_both_timestamps_are_captured() {
    let packets = vec![video(1000), audio(5000), video(-1), audio(1i64 << 33)];
    assert_eq!(scan_packets(VIDEO, AUDIO, false, &packets).unwrap(), 4000);
}

#[test]
fn scan_passes_over_later_keyframes_of_a_captured_stream() {
    let packets = vec![video(1000), video(-1), audio(5000)];
    assert_eq!(scan_packets(VIDEO, AUDIO, false, &packets).unwrap(), 4000);
    let packets = vec![audio(5000), audio(-1), video(1000)];
    assert_eq!(scan_packets(VIDEO, AUDIO, false, &packets).unwrap(), 4000);
}

#[test]
fn scan_aborts_on_an_invalid_video_timestamp() {
    let packets = vec![video(1i64 << 33), video(1000), audio(5000)];
    let e = scan_packets(VIDEO, AUDIO, false, &packets).unwrap_err();
    assert_eq!(e.description(), "check_pts(): Detected invalid PTS");
}

#[test]
fn scan_aborts_on_an_invalid_audio_timestamp() {
    let packets = vec![video(1000), audio(-1), audio(5000)];
    let e = scan_packets(VIDEO, AUDIO, false, &packets).unwrap_err();
    assert_eq!(e.description(), "check_pts(): Detected invalid PTS");
}

#[test]
fn scan_aborts_on_an_invalid_audio_timestamp_before_the_decoder_is_asked() {
    let packets = vec![video(1000), broken_audio(-1), audio(5000)];
    let e = scan_packets(VIDEO, AUDIO, true, &packets).unwrap_err();
    assert_eq!(e.description(), "check_pts(): Detected invalid PTS");
}

#[test]
fn a_delta_packet_with_an_invalid_timestamp_is_passed_over() {
    let packets = vec![delta(VIDEO, -1), delta(AUDIO, i64::MAX), video(1000), audio(5000)];
    assert_eq!(scan_packets(VIDEO, AUDIO, false, &packets).unwrap(), 4000);
}

#[test]
fn missing_video_timestamp_is_reported() {
    let packets = vec![delta(VIDEO, 1000), audio(5000), delta(VIDEO, 2000)];
    let e = scan_packets(VIDEO, AUDIO, false, &packets).unwrap_err();
    assert_eq!(e.description(), "get_delay(): PTS not found in video stream");
}

#[test]
fn missing_video_timestamp_is_reported_whatever_audio_holds() {
    let no_audio: Vec<Observation> = vec![delta(VIDEO, 1000)];
    let e = scan_packets(VIDEO, AUDIO, false, &no_audio).unwrap_err();
    assert_eq!(e.description(), "get_delay(): PTS not found in video stream");
    let empty: Vec<Observation> = Vec::new();
    let e = scan_packets(VIDEO, AUDIO, true, &empty).unwrap_err();
    assert_eq!(e.description(), "get_delay(): PTS not found in video stream");
    let rejected = vec![broken_audio(10), broken_audio(20)];
    let e = scan_packets(VIDEO, AUDIO, true, &rejected).unwrap_err();
    assert_eq!(e.description(), "get_delay(): PTS not found in video stream");
}

#[test]
fn missing_audio_timestamp_is_reported() {
    let packets = vec![video(1000), delta(AUDIO, 5000)];
    let e = scan_packets(VIDEO, AUDIO, false, &packets).unwrap_err();
    assert_eq!(e.description(), "get_delay(): PTS not found in audio stream");
}

#[test]
fn rejected_audio_keyframes_are_skipped() {
    let packets = vec![video(1000), broken_audio(2000), broken_audio(3000), broken_audio(4000), audio(5000), audio(6000)];
    assert_eq!(scan_packets(VIDEO, AUDIO, true, &packets).unwrap(), 4000);
}

#[test]
fn rejected_audio_keyframes_are_skipped_before_the_video_keyframe() {
    let packets = vec![broken_audio(2000), audio(2500), broken_audio(3000), video(1000)];
    assert_eq!(scan_packets(VIDEO, AUDIO, true, &packets).unwrap(), 1500);
}

#[test]
fn the_verdict_is_not_read_unless_broken_audio_is_dropped() {
    let packets = vec![video(1000), broken_audio(2000), audio(5000)];
    assert_eq!(scan_packets(VIDEO, AUDIO, false, &packets).unwrap(), 1000);
}

#[test]
fn only_rejected_audio_gives_no_audio_timestamp() {
    let packets = vec![video(1000), broken_audio(2000), broken_audio(3000)];
    let e = scan_packets(VIDEO, AUDIO, true, &packets).unwrap_err();
    assert_eq!(e.description(), "get_delay(): PTS not found in audio stream");
}

#[test]
fn scan_undoes_a_rollover() {
    let top: i64 = (1i64 << 33) - 1;
    assert_eq!(scan_packets(VIDEO, AUDIO, false, &vec![video(0), audio(top)]).unwrap(), -1);
    assert_eq!(scan_packets(VIDEO, AUDIO, false, &vec![video(top), audio(0)]).unwrap(), 1);
}

#[test]
fn a_packet_of_both_streams_counts_for_video_first() {
    let packets = vec![video(1000), video(5000)];
    assert_eq!(scan_packets(VIDEO, VIDEO, false, &packets).unwrap(), 4000);
}

#[test]
fn scanner_steps_through_a_scan() {
    let mut scanner = Scanner::new(VIDEO, AUDIO, true);
    assert!(!scanner.is_complete());
    assert_eq!(scanner.video_pts(), None);
    assert_eq!(scanner.audio_pts(), None);

    let first = Packet::new(AUDIO, true, 2000);
    assert!(scanner.needs_probe(&first));
    assert_eq!(scanner.feed(&first, false).unwrap(), false);
    assert_eq!(scanner.audio_pts(), None);

    let second = Packet::new(VIDEO, true, 1000);
    assert!(!scanner.needs_probe(&second));
    assert_eq!(scanner.feed(&second, false).unwrap(), false);
    assert_eq!(scanner.video_pts(), Some(1000));

    let third = Packet::new(AUDIO, false, 3000);
    assert!(!scanner.needs_probe(&third));
    assert_eq!(scanner.feed(&third, true).unwrap(), false);

    let fourth = Packet::new(AUDIO, true, 5000);
    assert!(scanner.needs_probe(&fourth));
    assert_eq!(scanner.feed(&fourth, true).unwrap(), true);
    assert!(scanner.is_complete());
    assert_eq!(scanner.audio_pts(), Some(5000));
    assert_eq!(scanner.finish().unwrap(), 4000);

    let late = Packet::new(AUDIO, true, -1);
    assert!(!scanner.needs_probe(&late));
    assert_eq!(scanner.feed(&late, true).unwrap(), true);
    assert_eq!(scanner.finish().unwrap(), 4000);
}

#[test]
fn scanner_asks_for_no_probe_unless_broken_audio_is_dropped() {
    let scanner = Scanner::new(VIDEO, AUDIO, false);
    assert!(!scanner.needs_probe(&Packet::new(AUDIO, true, 2000)));
}

#[test]
fn scanner_asks_for_no_probe_on_an_invalid_timestamp() {
    let mut scanner = Scanner::new(VIDEO, AUDIO, true);
    let packet = Packet::new(AUDIO, true, 1i64 << 33);
    assert!(!scanner.needs_probe(&packet));
    let e = scanner.feed(&packet, true).unwrap_err();
    assert_eq!(e.description(), "check_pts(): Detected invalid PTS");
    assert_eq!(scanner.audio_pts(), None);
    assert_eq!(scanner.video_pts(), None);
}

#[test]
fn scanner_finish_reports_the_missing_stream() {
    let mut scanner = Scanner::new(VIDEO, AUDIO, false);
    assert_eq!(scanner.finish().unwrap_err().description(), "get_delay(): PTS not found in video stream");
    scanner.feed(&Packet::new(AUDIO, true, 5000), true).unwrap();
    assert_eq!(scanner.finish().unwrap_err().description(), "get_delay(): PTS not found in video stream");
    let mut scanner = Scanner::new(VIDEO, AUDIO, false);
    scanner.feed(&Packet::new(VIDEO, true, 1000), true).unwrap();
    assert_eq!(scanner.finish().unwrap_err().description(), "get_delay(): PTS not found in audio stream");
}
