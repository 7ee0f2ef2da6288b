use tsdelay::clock::{fix_overflow, is_valid_pts, pts_delay, PTS_EXCESS_MASK, PTS_MODULUS, PTS_REGION_MASK};
use tsdelay::packet::Packet;

const TOP: i64 = (1i64 << 33) - 1;

#[test]
fn clock_constants_have_their_values() {
    assert_eq!(PTS_MODULUS, 1i64 << 33);
    assert_eq!(PTS_REGION_MASK, 0x1_8000_0000);
    assert_eq!(PTS_EXCESS_MASK, 0xfffffffe00000000u64 as i64);
}

#[test]
fn validator_accepts_the_range_of_the_clock() {
    for pts in [0i64, 1, 90_000, 0x7fff_ffff, 0x8000_0000, 0x1_8000_0000, TOP] {
        assert!(is_valid_pts(pts), "{pts}");
        assert!(Packet::new(0, true, pts).check_pts().is_ok(), "{pts}");
    }
}

#[test]
fn validator_rejects_every_bit_above_bit_32() {
    for bit in 33..64 {
        let pts: i64 = ((1u64 << bit) as i64) | 5;
        assert!(!is_valid_pts(pts), "bit {bit}");
        assert!(Packet::new(0, true, pts).check_pts().is_err(), "bit {bit}");
    }
    for pts in [1i64 << 33, -1, i64::MIN, i64::MAX, (1i64 << 33) + 1000, i64::MIN + 1] {
        assert!(!is_valid_pts(pts), "{pts}");
    }
}

#[test]
fn validator_error_names_the_invalid_pts() {
    let e = Packet::new(3, false, -1).check_pts().unwrap_err();
    assert_eq!(e.description(), "check_pts(): Detected invalid PTS");
    assert!(e.source().is_none());
}

#[test]
fn video_wrapped_behind_audio_gives_minus_one() {
    assert_eq!(pts_delay(0, TOP), -1);
}

#[test]
fn audio_wrapped_behind_video_gives_plus_one() {
    assert_eq!(pts_delay(TOP, 0), 1);
}

#[test]
fn no_correction_gives_the_plain_difference() {
    assert_eq!(pts_delay(1000, 5000), 4000);
    assert_eq!(pts_delay(5000, 1000), -4000);
    assert_eq!(pts_delay(0, 0), 0);
    assert_eq!(pts_delay(TOP, TOP), 0);
}

#[test]
fn correction_needs_the_lowest_and_the_highest_quarter() {
    // The lowest quarter ends below 2^31, the highest starts at 3 * 2^31.
    assert_eq!(pts_delay(0x7fff_ffff, 0x1_8000_0000), 0x1_8000_0000 - 0x7fff_ffff - (1i64 << 33));
    assert_eq!(pts_delay(0x8000_0000, 0x1_8000_0000), 0x1_0000_0000);
    assert_eq!(pts_delay(0x7fff_ffff, 0x1_7fff_ffff), 0x1_0000_0000);
    assert_eq!(pts_delay(0x1_8000_0000, 0x7fff_ffff), 0x7fff_ffff + (1i64 << 33) - 0x1_8000_0000);
    assert_eq!(pts_delay(0x1_8000_0000, 0x8000_0000), -0x1_0000_0000);
    assert_eq!(pts_delay(0, 0x1_0000_0000), 0x1_0000_0000);
}

#[test]
fn exchanging_the_samples_negates_the_delay() {
    let samples: [i64; 8] = [0, 1, 1000, 0x7fff_ffff, 0x8000_0000, 0x1_7fff_ffff, 0x1_8000_0000, TOP];
    for a in samples {
        for b in samples {
            assert_eq!(pts_delay(a, b), -pts_delay(b, a), "{a} {b}");
        }
    }
}

#[test]
fn fix_overflow_adds_one_period_to_a_wrapped_sample() {
    let mut low: i64 = 0;
    let high: i64 = TOP;
    assert!(fix_overflow(&mut low, &high));
    assert_eq!(low, 1i64 << 33);
    let mut low: i64 = 0x7fff_ffff;
    assert!(fix_overflow(&mut low, &0x1_8000_0000));
    assert_eq!(low, 0x7fff_ffff + (1i64 << 33));
}

#[test]
fn fix_overflow_leaves_other_samples_alone() {
    let mut a: i64 = TOP;
    assert!(!fix_overflow(&mut a, &0));
    assert_eq!(a, TOP);
    let mut a: i64 = 1000;
    assert!(!fix_overflow(&mut a, &5000));
    assert_eq!(a, 1000);
    let mut a: i64 = 0x8000_0000;
    assert!(!fix_overflow(&mut a, &TOP));
    assert_eq!(a, 0x8000_0000);
    let mut a: i64 = 0;
    assert!(!fix_overflow(&mut a, &0x1_7fff_ffff));
    assert_eq!(a, 0);
}

#[test]
fn fix_overflow_sets_bit_33_of_any_sample() {
    let mut a: i64 = 0x2_0000_0005;
    assert!(fix_overflow(&mut a, &0x1_8000_0000));
    assert_eq!(a, 0x2_0000_0005);
    let mut b: i64 = 0x4_0000_0005;
    assert!(fix_overflow(&mut b, &0x1_8000_0000));
    assert_eq!(b, 0x6_0000_0005);
}
