//! The measurement as a whole, on a container that is held in memory.

use vstd::prelude::*;
use crate::error::{Error, ErrorView};
use crate::opt::{Opt, OptView};
use crate::packet::invalid_pts_message;
use crate::scan::{
    lemma_video_never_found, pts_not_found_message, scan_packets, Observation, ScanState,
};
use crate::stream::{
    find_streams, lemma_no_audio_stream, marked, selection, stream_not_found_message, MediaType,
    Stream,
};
use crate::text::str_eq;

verus! {

/// The name of the one container format that is measured.
pub open spec fn expected_format() -> Seq<char> {
    "mpegts"@
}

/// The message of the error for a container of another format.
pub open spec fn unexpected_format_message(name: Seq<char>) -> Seq<char> {
    "check_format(): Unexpected format - "@ + name
}

/// Accepts the name of a container format if it is the transport stream's.
pub fn check_format(name: &str) -> (result: Result<(), Error>)
    ensures
        result is Ok <==> name@ == expected_format(),
        result matches Err(e) ==> e@ == ErrorView::other(unexpected_format_message(name@)),
{
    if str_eq(name, "mpegts") {
        Ok(())
    } else {
        let mut msg = String::from_str("check_format(): Unexpected format - ");
        msg.append(name);
        Err(Error::new(msg.as_str()))
    }
}

/// A container held in memory: the name of its format, its elementary
/// streams in catalog order, and its packets in the order of delivery, each
/// with the decoder's verdict on it.
#[derive(Debug)]
pub struct Container {
    pub format_name: String,
    pub streams: Vec<Stream>,
    pub packets: Vec<Observation>,
}

/// What the measurement of a container reports: the error of the format
/// check, else the error of the stream selection, else what the scan of the
/// packets reports for the chosen streams.
pub open spec fn measured(
    opt: OptView,
    format_name: Seq<char>,
    streams: Seq<Stream>,
    packets: Seq<Observation>,
) -> Result<int, ErrorView> {
    if format_name != expected_format() {
        Err(ErrorView::other(unexpected_format_message(format_name)))
    } else {
        match selection(streams, opt.video_id, opt.audio_id) {
            Err(e) => Err(e),
            Ok((v, a)) => ScanState::start(
                streams[v].index,
                streams[a].index,
                opt.drop_broken_audio,
            ).scan_delay(packets),
        }
    }
}

/// Measures the delay of the audio stream against the video stream of a
/// container, in clock ticks.
///
/// The format is checked, the video and the audio stream are chosen as
/// [`find_streams`] describes, which sets the delivery policy of every
/// stream, and the packets are scanned as [`scan_packets`] describes.
pub fn get_delay(opt: &Opt, container: &mut Container) -> (result: Result<i64, Error>)
    ensures
        final(container).format_name@ == old(container).format_name@,
        final(container).packets@ == old(container).packets@,
        final(container).streams@ == if old(container).format_name@ == expected_format() {
            marked(old(container).streams@, opt@.video_id, opt@.audio_id)
        } else {
            old(container).streams@
        },
        match result {
            Ok(delay) => measured(
                opt@,
                old(container).format_name@,
                old(container).streams@,
                old(container).packets@,
            ) == Ok::<int, ErrorView>(delay as int),
            Err(e) => measured(
                opt@,
                old(container).format_name@,
                old(container).streams@,
                old(container).packets@,
            ) == Err::<int, ErrorView>(e@),
        },
        result matches Ok(delay) ==> -0x2_0000_0000 < delay < 0x2_0000_0000,
{
    match check_format(container.format_name.as_str()) {
        Ok(()) => {},
        Err(e) => {
            return Err(e);
        },
    }
    let (video, audio) = match find_streams(
        &mut container.streams,
        opt.video_id(),
        opt.audio_id(),
    ) {
        Ok(pair) => pair,
        Err(e) => {
            return Err(e);
        },
    };
    let video_index: i32 = container.streams[video].index;
    let audio_index: i32 = container.streams[audio].index;
    scan_packets(video_index, audio_index, opt.drop_broken_audio(), &container.packets)
}

/// A delay in the unit of a format, as it is shown.
#[derive(Clone, Copy, Debug, PartialEq, Eq, Structural)]
pub enum Delay {
    /// A whole number of units.
    Integer(i64),
    /// The real number `numerator / denominator`.
    Real { numerator: i64, denominator: i32 },
}

/// The quotient of `n` by a positive `d`, rounded toward zero.
pub open spec fn truncated_quotient(n: int, d: int) -> int {
    if n >= 0 {
        n / d
    } else {
        -((-n) / d)
    }
}

/// Scales a delay in clock ticks into the unit of the chosen format.
///
/// The tick count is multiplied by the format's numerator.  A format of whole
/// numbers then divides by the format's denominator and rounds toward zero;
/// a format of real numbers leaves the division to the caller and hands out
/// both operands.
pub fn format_delay(opt: &Opt, raw_delay: i64) -> (result: Delay)
    requires
        i64::MIN <= raw_delay * opt@.format.scale_numerator() <= i64::MAX,
    ensures
        match result {
            Delay::Integer(value) => {
                &&& !opt@.format.shows_real()
                &&& value == truncated_quotient(
                    raw_delay * opt@.format.scale_numerator(),
                    opt@.format.scale_denominator(),
                )
            },
            Delay::Real { numerator, denominator } => {
                &&& opt@.format.shows_real()
                &&& numerator == raw_delay * opt@.format.scale_numerator()
                &&& denominator == opt@.format.scale_denominator()
            },
        },
{
    let delay_numerator: i64 = raw_delay * (opt.numerator() as i64);
    if opt.is_real() {
        Delay::Real { numerator: delay_numerator, denominator: opt.denominator() }
    } else {
        Delay::Integer(delay_numerator / (opt.denominator() as i64))
    }
}

/// The delay that a measurement reports can be scaled into every format.
pub proof fn lemma_delay_scales(opt: OptView, raw_delay: int)
    requires
        -0x2_0000_0000 < raw_delay < 0x2_0000_0000,
    ensures
        i64::MIN <= raw_delay * opt.format.scale_numerator() <= i64::MAX,
{
}

/// The measurement of a transport stream without an audio stream fails with
/// the error for a missing audio stream, provided that a video stream is
/// chosen: a missing video stream is reported first.
pub proof fn lemma_container_without_audio(
    opt: OptView,
    format_name: Seq<char>,
    streams: Seq<Stream>,
    packets: Seq<Observation>,
)
    requires
        format_name == expected_format(),
        forall|i: int|
            0 <= i < streams.len() ==> (#[trigger] streams[i]).media_type != MediaType::Audio,
        exists|i: int|
            0 <= i < streams.len() && (#[trigger] streams[i]).matches(
                MediaType::Video,
                opt.video_id,
            ),
    ensures
        measured(opt, format_name, streams, packets) == Err::<int, ErrorView>(
            ErrorView::other(stream_not_found_message("Audio"@, opt.audio_id)),
        ),
{
    lemma_no_audio_stream(streams, opt.video_id, opt.audio_id);
}

/// The measurement of a transport stream whose packets hold no keyframe of
/// the chosen video stream fails, whatever the audio stream holds: with the
/// error for a video stream without a timestamp, unless the scan fails before
/// on a malformed timestamp of the audio stream.
pub proof fn lemma_container_without_video_keyframe(
    opt: OptView,
    format_name: Seq<char>,
    streams: Seq<Stream>,
    packets: Seq<Observation>,
)
    requires
        format_name == expected_format(),
        selection(streams, opt.video_id, opt.audio_id) is Ok,
        forall|j: int|
            0 <= j < packets.len() ==> !(#[trigger] packets[j]).packet.is_keyframe_of(
                streams[selection(streams, opt.video_id, opt.audio_id)->Ok_0.0].index,
            ),
    ensures
        ({
            let (v, a) = selection(streams, opt.video_id, opt.audio_id)->Ok_0;
            let start = ScanState::start(streams[v].index, streams[a].index, opt.drop_broken_audio);
            measured(opt, format_name, streams, packets) == if start.scan(packets) is Ok {
                Err::<int, ErrorView>(ErrorView::other(pts_not_found_message("video"@)))
            } else {
                Err::<int, ErrorView>(ErrorView::other(invalid_pts_message()))
            }
        }),
{
    let (v, a) = selection(streams, opt.video_id, opt.audio_id)->Ok_0;
    let start = ScanState::start(streams[v].index, streams[a].index, opt.drop_broken_audio);
    lemma_video_never_found(start, packets);
}

} // verus!
