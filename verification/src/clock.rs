//! The 33-bit presentation clock: which samples are well formed, and how a
//! rollover between two samples is undone.

use vstd::prelude::*;

verus! {

/// The number of ticks after which the presentation clock starts again at
/// zero: two to the power 33.
pub const PTS_MODULUS: i64 = 0x2_0000_0000;

/// The two topmost bits of a 33-bit clock sample.
pub const PTS_REGION_MASK: i64 = 0x1_8000_0000;

/// Every bit of a 64-bit sample that lies above the 33-bit clock.
pub const PTS_EXCESS_MASK: i64 = -0x2_0000_0000;

/// A sample is well formed when it lies in the range of the 33-bit clock.
pub open spec fn valid_pts(pts: i64) -> bool {
    0 <= pts < 0x2_0000_0000
}

/// Whether `pts` lies in the lowest quarter of the clock's range: the clock
/// started again a short while ago.
pub open spec fn in_low_region(pts: i64) -> bool {
    pts & 0x1_8000_0000 == 0
}

/// Whether `pts` lies in the highest quarter of the clock's range: the clock
/// is about to start again.
pub open spec fn in_high_region(pts: i64) -> bool {
    pts & 0x1_8000_0000 == 0x1_8000_0000
}

/// Whether `pts1` is taken to have rolled over since `pts2` was sampled.
pub open spec fn rolled_over(pts1: i64, pts2: i64) -> bool {
    in_low_region(pts1) && in_high_region(pts2)
}

/// The signed distance in ticks from the video sample to the audio sample,
/// with a rollover of either sample undone.
pub open spec fn delay_of(video_pts: i64, audio_pts: i64) -> int {
    if rolled_over(video_pts, audio_pts) {
        audio_pts - (video_pts + 0x2_0000_0000)
    } else if rolled_over(audio_pts, video_pts) {
        (audio_pts + 0x2_0000_0000) - video_pts
    } else {
        audio_pts - video_pts
    }
}

/// A sample is well formed exactly when none of its bits above the 33-bit
/// clock is set.
pub proof fn lemma_valid_pts_bits(pts: i64)
    ensures
        valid_pts(pts) <==> pts & PTS_EXCESS_MASK == 0,
{
    assert((0 <= pts < 0x2_0000_0000) <==> pts & (-0x2_0000_0000i64) == 0) by (bit_vector);
}

/// For a well-formed sample the regions are the lowest and the highest
/// quarter of the clock's range.
pub proof fn lemma_regions(pts: i64)
    requires
        valid_pts(pts),
    ensures
        in_low_region(pts) <==> pts < 0x8000_0000,
        in_high_region(pts) <==> pts >= 0x1_8000_0000,
{
    assert(0 <= pts < 0x2_0000_0000 ==> (pts & 0x1_8000_0000 == 0 <==> pts < 0x8000_0000))
        by (bit_vector);
    assert(0 <= pts < 0x2_0000_0000 ==> (pts & 0x1_8000_0000 == 0x1_8000_0000 <==> pts
        >= 0x1_8000_0000)) by (bit_vector);
}

/// No sample lies in both regions, so of two samples at most one is taken to
/// have rolled over since the other.
pub proof fn lemma_rollover_exclusive(pts1: i64, pts2: i64)
    ensures
        !(in_low_region(pts1) && in_high_region(pts1)),
        !(rolled_over(pts1, pts2) && rolled_over(pts2, pts1)),
{
    assert(!(pts1 & 0x1_8000_0000 == 0 && pts1 & 0x1_8000_0000 == 0x1_8000_0000));
}

/// Where neither sample is taken to have rolled over since the other, the
/// delay is the plain difference.
pub proof fn lemma_delay_without_rollover(video_pts: i64, audio_pts: i64)
    requires
        !rolled_over(video_pts, audio_pts),
        !rolled_over(audio_pts, video_pts),
    ensures
        delay_of(video_pts, audio_pts) == audio_pts - video_pts,
{
}

/// The delay of two well-formed samples is less than one clock period in
/// either direction, and less than half a period where a rollover was undone.
pub proof fn lemma_delay_bounds(video_pts: i64, audio_pts: i64)
    requires
        valid_pts(video_pts),
        valid_pts(audio_pts),
    ensures
        -0x2_0000_0000 < delay_of(video_pts, audio_pts) < 0x2_0000_0000,
        rolled_over(video_pts, audio_pts) ==> -0x1_0000_0000 < delay_of(video_pts, audio_pts) < 0,
        rolled_over(audio_pts, video_pts) ==> 0 < delay_of(video_pts, audio_pts) < 0x1_0000_0000,
{
    lemma_regions(video_pts);
    lemma_regions(audio_pts);
}

/// Exchanging the two samples negates the delay.
pub proof fn lemma_delay_antisymmetric(video_pts: i64, audio_pts: i64)
    ensures
        delay_of(audio_pts, video_pts) == -delay_of(video_pts, audio_pts),
{
    lemma_rollover_exclusive(video_pts, audio_pts);
}

/// Undoing a rollover changes the plain difference of the samples by one
/// clock period and nothing else.
pub proof fn lemma_delay_congruent(video_pts: i64, audio_pts: i64)
    ensures
        delay_of(video_pts, audio_pts) == audio_pts - video_pts || delay_of(video_pts, audio_pts)
            == audio_pts - video_pts - PTS_MODULUS || delay_of(video_pts, audio_pts) == audio_pts
            - video_pts + PTS_MODULUS,
{
}

/// Whether a sample is well formed.
pub fn is_valid_pts(pts: i64) -> (result: bool)
    ensures
        result == valid_pts(pts),
        result == (pts & PTS_EXCESS_MASK == 0),
{
    proof {
        lemma_valid_pts_bits(pts);
    }
    (pts & PTS_EXCESS_MASK) == 0
}

/// Undoes a rollover of `pts1` relative to `pts2`.
///
/// Where `pts1` lies in the low region and `pts2` in the high region, `pts1`
/// is taken to have rolled over: its bit 33 is set, which for a well-formed
/// sample adds one clock period, and the call returns `true`.  Otherwise
/// `pts1` is left alone and the call returns `false`.
pub fn fix_overflow(pts1: &mut i64, pts2: &i64) -> (result: bool)
    ensures
        result == rolled_over(*old(pts1), *pts2),
        !result ==> *final(pts1) == *old(pts1),
        result ==> *final(pts1) == *old(pts1) | 0x2_0000_0000,
        result && valid_pts(*old(pts1)) ==> *final(pts1) == *old(pts1) + 0x2_0000_0000,
{
    if (*pts1 & PTS_REGION_MASK) == 0 && (*pts2 & PTS_REGION_MASK) == PTS_REGION_MASK {
        let ghost before = *pts1;
        *pts1 = *pts1 | PTS_MODULUS;
        proof {
            assert(0 <= before < 0x2_0000_0000 ==> before | 0x2_0000_0000 == before
                + 0x2_0000_0000) by (bit_vector);
        }
        true
    } else {
        false
    }
}

/// The delay of the audio stream against the video stream, in clock ticks.
///
/// A rollover of the clock between the two samples is undone first, on
/// whichever side it happened; the result is the audio sample minus the video
/// sample and is negative where the audio sample is the earlier one.
pub fn pts_delay(video_pts: i64, audio_pts: i64) -> (result: i64)
    requires
        valid_pts(video_pts),
        valid_pts(audio_pts),
    ensures
        result == delay_of(video_pts, audio_pts),
        !rolled_over(video_pts, audio_pts) && !rolled_over(audio_pts, video_pts) ==> result
            == audio_pts - video_pts,
        -0x2_0000_0000 < result < 0x2_0000_0000,
{
    let mut video: i64 = video_pts;
    let mut audio: i64 = audio_pts;
    proof {
        lemma_rollover_exclusive(video_pts, audio_pts);
        lemma_delay_bounds(video_pts, audio_pts);
    }
    if !fix_overflow(&mut video, &audio) {
        fix_overflow(&mut audio, &video);
    }
    audio - video
}

} // verus!
