//! The scan of the packet sequence for one timestamp of each chosen stream.
//!
//! The scan is a state machine.  The caller reads a packet, asks
//! [`Scanner::needs_probe`] whether the decoder has to judge it, and feeds
//! the packet with the verdict to [`Scanner::feed`], until the scan is
//! complete or the input ends; [`Scanner::finish`] then gives the delay.

use vstd::prelude::*;
use crate::clock::{delay_of, is_valid_pts, pts_delay, valid_pts};
use crate::error::{Error, ErrorView};
use crate::packet::{invalid_pts_message, Packet};

verus! {

/// A packet together with the decoder's verdict on it.  The verdict is read
/// only where the scan consults the decoder.
#[derive(Clone, Copy, Debug, PartialEq, Eq, Structural)]
pub struct Observation {
    pub packet: Packet,
    /// Whether the decoder accepts the packet.
    pub decodable: bool,
}

impl Observation {
    /// A packet with the decoder's verdict on it.
    pub fn new(packet: Packet, decodable: bool) -> (result: Observation)
        ensures
            result == (Observation { packet, decodable }),
    {
        Observation { packet, decodable }
    }
}

/// The state of a scan: what it looks for and what it has captured.
pub struct ScanState {
    /// The `index` of the chosen video stream.
    pub video_index: i32,
    /// The `index` of the chosen audio stream.
    pub audio_index: i32,
    /// Whether audio packets that the decoder rejects are passed over.
    pub drop_broken_audio: bool,
    /// The timestamp captured for the video stream.
    pub video_pts: Option<i64>,
    /// The timestamp captured for the audio stream.
    pub audio_pts: Option<i64>,
}

/// The message of the error for a stream that ended without a timestamp.
pub open spec fn pts_not_found_message(stream: Seq<char>) -> Seq<char> {
    "get_delay(): PTS not found in "@ + stream + " stream"@
}

impl ScanState {
    /// The state before the first packet.
    pub open spec fn start(video_index: i32, audio_index: i32, drop_broken_audio: bool) -> ScanState {
        ScanState { video_index, audio_index, drop_broken_audio, video_pts: None, audio_pts: None }
    }

    /// Whether both timestamps are captured.
    pub open spec fn complete(self) -> bool {
        self.video_pts is Some && self.audio_pts is Some
    }

    /// Whether `packet` stands for the video timestamp: no video timestamp is
    /// captured yet and the packet is a keyframe of the video stream.
    pub open spec fn video_candidate(self, packet: Packet) -> bool {
        self.video_pts is None && packet.is_keyframe_of(self.video_index)
    }

    /// Whether `packet` stands for the audio timestamp: it does not stand for
    /// the video timestamp, no audio timestamp is captured yet and the packet
    /// is a keyframe of the audio stream.
    pub open spec fn audio_candidate(self, packet: Packet) -> bool {
        !self.video_candidate(packet) && self.audio_pts is None && packet.is_keyframe_of(
            self.audio_index,
        )
    }

    /// Whether `packet` ends the scan with an error: it is a candidate and its
    /// timestamp is malformed.
    pub open spec fn aborts_on(self, packet: Packet) -> bool {
        (self.video_candidate(packet) || self.audio_candidate(packet)) && !valid_pts(packet.pts)
    }

    /// Whether the decoder's verdict on `packet` is read: the packet is an
    /// audio candidate with a well-formed timestamp and broken audio is to be
    /// dropped.
    pub open spec fn consults_decoder(self, packet: Packet) -> bool {
        self.drop_broken_audio && self.audio_candidate(packet) && valid_pts(packet.pts)
    }

    /// The state after a packet on which the scan does not abort.  A video
    /// candidate is captured; an audio candidate is captured unless the
    /// decoder was consulted and rejected it; any other packet is passed over.
    pub open spec fn after(self, packet: Packet, decodable: bool) -> ScanState {
        if self.video_candidate(packet) {
            ScanState { video_pts: Some(packet.pts), ..self }
        } else if self.audio_candidate(packet) && (!self.drop_broken_audio || decodable) {
            ScanState { audio_pts: Some(packet.pts), ..self }
        } else {
            self
        }
    }

    /// The state in which the scan of `trace` ends: packets are taken in
    /// order until both timestamps are captured or the trace is exhausted.
    /// The scan fails at the first candidate with a malformed timestamp.
    pub open spec fn scan(self, trace: Seq<Observation>) -> Result<ScanState, ErrorView>
        decreases trace.len(),
    {
        if self.complete() || trace.len() == 0 {
            Ok(self)
        } else if self.aborts_on(trace[0].packet) {
            Err(ErrorView::other(invalid_pts_message()))
        } else {
            self.after(trace[0].packet, trace[0].decodable).scan(trace.drop_first())
        }
    }

    /// What a scan that ended in this state reports: the delay where both
    /// timestamps are captured, else the error for the stream without one,
    /// video before audio.
    pub open spec fn conclusion(self) -> Result<int, ErrorView> {
        match (self.video_pts, self.audio_pts) {
            (None, _) => Err(ErrorView::other(pts_not_found_message("video"@))),
            (Some(_), None) => Err(ErrorView::other(pts_not_found_message("audio"@))),
            (Some(v), Some(a)) => Ok(delay_of(v, a)),
        }
    }

    /// What the scan of `trace` from this state reports.
    pub open spec fn scan_delay(self, trace: Seq<Observation>) -> Result<int, ErrorView> {
        match self.scan(trace) {
            Ok(end) => end.conclusion(),
            Err(e) => Err(e),
        }
    }
}

/// A scan in progress.
#[derive(Debug)]
pub struct Scanner {
    video_index: i32,
    audio_index: i32,
    drop_broken_audio: bool,
    video_pts: Option<i64>,
    audio_pts: Option<i64>,
}

impl View for Scanner {
    type V = ScanState;

    closed spec fn view(&self) -> ScanState {
        ScanState {
            video_index: self.video_index,
            audio_index: self.audio_index,
            drop_broken_audio: self.drop_broken_audio,
            video_pts: self.video_pts,
            audio_pts: self.audio_pts,
        }
    }
}

impl Scanner {
    #[verifier::type_invariant]
    spec fn captured_valid(self) -> bool {
        &&& self.video_pts matches Some(v) ==> valid_pts(v)
        &&& self.audio_pts matches Some(a) ==> valid_pts(a)
    }

    /// A scan for the streams numbered `video_index` and `audio_index` that
    /// has seen no packet yet.
    pub fn new(video_index: i32, audio_index: i32, drop_broken_audio: bool) -> (result: Scanner)
        ensures
            result@ == ScanState::start(video_index, audio_index, drop_broken_audio),
    {
        Scanner { video_index, audio_index, drop_broken_audio, video_pts: None, audio_pts: None }
    }

    /// The timestamp captured for the video stream.
    pub fn video_pts(&self) -> (result: Option<i64>)
        ensures
            result == self@.video_pts,
            result matches Some(v) ==> valid_pts(v),
    {
        proof {
            use_type_invariant(self);
        }
        self.video_pts
    }

    /// The timestamp captured for the audio stream.
    pub fn audio_pts(&self) -> (result: Option<i64>)
        ensures
            result == self@.audio_pts,
            result matches Some(a) ==> valid_pts(a),
    {
        proof {
            use_type_invariant(self);
        }
        self.audio_pts
    }

    /// Whether both timestamps are captured, so that no further packet is
    /// needed.
    pub fn is_complete(&self) -> (result: bool)
        ensures
            result == self@.complete(),
    {
        self.video_pts.is_some() && self.audio_pts.is_some()
    }

    /// Whether the decoder has to judge `packet` before it is fed.
    pub fn needs_probe(&self, packet: &Packet) -> (result: bool)
        ensures
            result == self@.consults_decoder(*packet),
    {
        if !self.drop_broken_audio {
            return false;
        }
        if self.video_pts.is_none() && packet.is_keyframe(self.video_index) {
            return false;
        }
        self.audio_pts.is_none() && packet.is_keyframe(self.audio_index) && is_valid_pts(
            packet.pts(),
        )
    }

    /// Takes the next packet of the container.
    ///
    /// `decodable` is the decoder's verdict on the packet; it is read only
    /// where [`Scanner::needs_probe`] answers `true` for the packet.  The call
    /// fails on a candidate with a malformed timestamp and then leaves the
    /// scan as it was.  Otherwise it returns whether the scan is complete.
    pub fn feed(&mut self, packet: &Packet, decodable: bool) -> (result: Result<bool, Error>)
        ensures
            result is Err <==> old(self)@.aborts_on(*packet),
            match result {
                Ok(done) => {
                    &&& final(self)@ == old(self)@.after(*packet, decodable)
                    &&& done == final(self)@.complete()
                },
                Err(e) => {
                    &&& final(self)@ == old(self)@
                    &&& e@ == ErrorView::other(invalid_pts_message())
                },
            },
    {
        proof {
            use_type_invariant(&*self);
        }
        if self.video_pts.is_none() && packet.is_keyframe(self.video_index) {
            match packet.check_pts() {
                Ok(()) => {},
                Err(e) => {
                    return Err(e);
                },
            }
            self.video_pts = Some(packet.pts());
        } else if self.audio_pts.is_none() && packet.is_keyframe(self.audio_index) {
            match packet.check_pts() {
                Ok(()) => {},
                Err(e) => {
                    return Err(e);
                },
            }
            if !self.drop_broken_audio || decodable {
                self.audio_pts = Some(packet.pts());
            }
        }
        Ok(self.video_pts.is_some() && self.audio_pts.is_some())
    }

    /// Ends the scan and reports the delay of the audio stream against the
    /// video stream in clock ticks, or which stream gave no timestamp.
    pub fn finish(&self) -> (result: Result<i64, Error>)
        ensures
            match result {
                Ok(delay) => self@.conclusion() == Ok::<int, ErrorView>(delay as int),
                Err(e) => self@.conclusion() == Err::<int, ErrorView>(e@),
            },
            result matches Ok(delay) ==> -0x2_0000_0000 < delay < 0x2_0000_0000,
    {
        proof {
            use_type_invariant(self);
        }
        let video_pts: i64 = match self.video_pts {
            Some(v) => v,
            None => {
                proof {
                    reveal_strlit("get_delay(): PTS not found in video stream");
                    reveal_strlit("get_delay(): PTS not found in ");
                    reveal_strlit("video");
                    reveal_strlit(" stream");
                    assert("get_delay(): PTS not found in video stream"@ =~= pts_not_found_message(
                        "video"@,
                    ));
                }
                return Err(Error::new("get_delay(): PTS not found in video stream"));
            },
        };
        let audio_pts: i64 = match self.audio_pts {
            Some(a) => a,
            None => {
                proof {
                    reveal_strlit("get_delay(): PTS not found in audio stream");
                    reveal_strlit("get_delay(): PTS not found in ");
                    reveal_strlit("audio");
                    reveal_strlit(" stream");
                    assert("get_delay(): PTS not found in audio stream"@ =~= pts_not_found_message(
                        "audio"@,
                    ));
                }
                return Err(Error::new("get_delay(): PTS not found in audio stream"));
            },
        };
        Ok(pts_delay(video_pts, audio_pts))
    }
}

/// Scans a recorded packet sequence for the streams numbered `video_index`
/// and `audio_index` and reports the delay of the audio stream against the
/// video stream in clock ticks.
///
/// The packets are taken in order until both timestamps are captured; the
/// packets after that point are not looked at.
pub fn scan_packets(
    video_index: i32,
    audio_index: i32,
    drop_broken_audio: bool,
    packets: &Vec<Observation>,
) -> (result: Result<i64, Error>)
    ensures
        match result {
            Ok(delay) => ScanState::start(video_index, audio_index, drop_broken_audio).scan_delay(
                packets@,
            ) == Ok::<int, ErrorView>(delay as int),
            Err(e) => ScanState::start(video_index, audio_index, drop_broken_audio).scan_delay(
                packets@,
            ) == Err::<int, ErrorView>(e@),
        },
        result matches Ok(delay) ==> -0x2_0000_0000 < delay < 0x2_0000_0000,
{
    let ghost start = ScanState::start(video_index, audio_index, drop_broken_audio);
    let mut scanner = Scanner::new(video_index, audio_index, drop_broken_audio);
    let mut i: usize = 0;
    proof {
        assert(packets@.skip(0) =~= packets@);
    }
    while i < packets.len() && !scanner.is_complete()
        invariant
            i <= packets@.len(),
            start == ScanState::start(video_index, audio_index, drop_broken_audio),
            start.scan(packets@) == scanner@.scan(packets@.skip(i as int)),
        decreases packets@.len() - i,
    {
        let observation = packets[i];
        proof {
            let rest = packets@.skip(i as int);
            assert(rest[0] == observation);
            assert(rest.drop_first() =~= packets@.skip(i + 1));
            assert(scanner@.scan(rest) == if scanner@.aborts_on(observation.packet) {
                Err::<ScanState, ErrorView>(ErrorView::other(invalid_pts_message()))
            } else {
                scanner@.after(observation.packet, observation.decodable).scan(rest.drop_first())
            });
        }
        match scanner.feed(&observation.packet, observation.decodable) {
            Ok(_) => {},
            Err(e) => {
                return Err(e);
            },
        }
        i += 1;
    }
    scanner.finish()
}

/// Whether position `k` holds the first keyframe of the stream numbered
/// `index` in the trace.
pub open spec fn is_first_keyframe(trace: Seq<Observation>, index: i32, k: int) -> bool {
    &&& 0 <= k < trace.len()
    &&& trace[k].packet.is_keyframe_of(index)
    &&& forall|j: int| 0 <= j < k ==> !(#[trigger] trace[j]).packet.is_keyframe_of(index)
}

/// A scan never changes what it looks for, and never replaces a timestamp
/// that it has captured.  Where it fails, it fails with the error for a
/// malformed timestamp.
pub proof fn lemma_scan_keeps_captured(state: ScanState, trace: Seq<Observation>)
    ensures
        state.scan(trace) matches Err(e) ==> e == ErrorView::other(invalid_pts_message()),
        state.scan(trace) matches Ok(end) ==> {
            &&& end.video_index == state.video_index
            &&& end.audio_index == state.audio_index
            &&& end.drop_broken_audio == state.drop_broken_audio
            &&& state.video_pts is Some ==> end.video_pts == state.video_pts
            &&& state.audio_pts is Some ==> end.audio_pts == state.audio_pts
        },
    decreases trace.len(),
{
    if !state.complete() && trace.len() > 0 && !state.aborts_on(trace[0].packet) {
        lemma_scan_keeps_captured(
            state.after(trace[0].packet, trace[0].decodable),
            trace.drop_first(),
        );
    }
}

/// The decoder's verdict on a packet bears on the scan only where the scan
/// consults the decoder.
pub proof fn lemma_verdict_unread(state: ScanState, packet: Packet)
    requires
        !state.consults_decoder(packet),
        !state.aborts_on(packet),
    ensures
        state.after(packet, true) == state.after(packet, false),
{
}

/// The audio timestamp that a scan captures is that of the first keyframe of
/// the audio stream that is not passed over.
///
/// Let position `k` hold a keyframe of the audio stream with a well-formed
/// timestamp which the decoder accepts, or which is not submitted to it.  Let
/// every keyframe of the audio stream before `k` have a well-formed timestamp
/// and be rejected by the decoder, and let the first keyframe of the video
/// stream before `k`, where the scan still waits for it, have a well-formed
/// timestamp.  Then the scan does not fail up to `k`, and it captures the
/// timestamp of `k` for the audio stream: the rejected keyframes neither end
/// the scan nor supply the timestamp.
pub proof fn lemma_first_accepted_audio_captured(
    state: ScanState,
    trace: Seq<Observation>,
    k: int,
)
    requires
        state.audio_pts is None,
        state.video_index != state.audio_index,
        0 <= k < trace.len(),
        trace[k].packet.is_keyframe_of(state.audio_index),
        valid_pts(trace[k].packet.pts),
        !state.drop_broken_audio || trace[k].decodable,
        forall|j: int|
            0 <= j < k && (#[trigger] trace[j]).packet.is_keyframe_of(state.audio_index) ==> {
                &&& valid_pts(trace[j].packet.pts)
                &&& state.drop_broken_audio
                &&& !trace[j].decodable
            },
        forall|j: int|
            0 <= j < k && state.video_pts is None && is_first_keyframe(
                trace,
                state.video_index,
                j,
            ) ==> valid_pts(#[trigger] trace[j].packet.pts),
    ensures
        state.scan(trace.take(k + 1)) matches Ok(end) && end.audio_pts == Some(
            trace[k].packet.pts,
        ),
        state.scan(trace) matches Ok(end) ==> end.audio_pts == Some(trace[k].packet.pts),
        state.scan_delay(trace) != Err::<int, ErrorView>(
            ErrorView::other(pts_not_found_message("audio"@)),
        ),
    decreases k,
{
    let first = trace[0];
    let prefix = trace.take(k + 1);
    assert(prefix[0] == first);
    let next = state.after(first.packet, first.decodable);
    if k == 0 {
        assert(next.audio_pts == Some(first.packet.pts));
        assert(prefix.drop_first() =~= Seq::<Observation>::empty());
        assert(next.scan(prefix.drop_first()) == Ok::<ScanState, ErrorView>(next));
        lemma_scan_keeps_captured(next, trace.drop_first());
    } else {
        if state.video_candidate(first.packet) {
            assert(is_first_keyframe(trace, state.video_index, 0));
        }
        assert(!state.aborts_on(first.packet));
        let rest = trace.drop_first();
        assert(prefix.drop_first() =~= rest.take(k));
        assert(next.audio_pts is None);
        assert forall|j: int|
            0 <= j < k - 1 && next.video_pts is None && is_first_keyframe(
                rest,
                next.video_index,
                j,
            ) implies valid_pts(#[trigger] rest[j].packet.pts) by {
            assert(!first.packet.is_keyframe_of(state.video_index));
            assert forall|i: int| 0 <= i < j + 1 implies !(#[trigger] trace[i]).packet.is_keyframe_of(
                state.video_index,
            ) by {
                if i > 0 {
                    assert(trace[i] == rest[i - 1]);
                }
            }
            assert(is_first_keyframe(trace, state.video_index, j + 1));
            assert(trace[j + 1] == rest[j]);
        }
        assert forall|j: int|
            0 <= j < k - 1 && (#[trigger] rest[j]).packet.is_keyframe_of(
                next.audio_index,
            ) implies {
            &&& valid_pts(rest[j].packet.pts)
            &&& next.drop_broken_audio
            &&& !rest[j].decodable
        } by {
            assert(rest[j] == trace[j + 1]);
        }
        lemma_first_accepted_audio_captured(next, rest, k - 1);
    }
    lemma_scan_keeps_captured(state, trace);
    lemma_messages_differ();
}

/// The three messages with which a scan fails differ from each other.
pub proof fn lemma_messages_differ()
    ensures
        pts_not_found_message("video"@) != pts_not_found_message("audio"@),
        invalid_pts_message() != pts_not_found_message("video"@),
        invalid_pts_message() != pts_not_found_message("audio"@),
{
    reveal_strlit("check_pts(): Detected invalid PTS");
    reveal_strlit("get_delay(): PTS not found in ");
    reveal_strlit("video");
    reveal_strlit("audio");
    let head = "get_delay(): PTS not found in "@;
    let tail = " stream"@;
    assert(head.len() == 30);
    assert((head + "video"@ + tail)[30] == 'v');
    assert((head + "audio"@ + tail)[30] == 'a');
    assert((head + "video"@ + tail)[0] == 'g');
    assert((head + "audio"@ + tail)[0] == 'g');
    assert(invalid_pts_message()[0] == 'c');
}

/// The video timestamp that a scan captures is that of the first keyframe of
/// the video stream.
///
/// Let position `k` hold the first keyframe of the video stream, with a
/// well-formed timestamp, and let the scan neither fail nor come to its end
/// before `k`.  Then the scan captures the timestamp of `k` for the video
/// stream.
pub proof fn lemma_first_video_keyframe_captured(
    state: ScanState,
    trace: Seq<Observation>,
    k: int,
)
    requires
        state.video_pts is None,
        is_first_keyframe(trace, state.video_index, k),
        valid_pts(trace[k].packet.pts),
        state.scan(trace.take(k)) is Ok,
    ensures
        state.scan(trace) matches Ok(end) ==> end.video_pts == Some(trace[k].packet.pts),
    decreases k,
{
    let first = trace[0];
    let next = state.after(first.packet, first.decodable);
    if k == 0 {
        lemma_scan_keeps_captured(next, trace.drop_first());
    } else {
        let prefix = trace.take(k);
        assert(prefix[0] == first);
        let rest = trace.drop_first();
        assert(prefix.drop_first() =~= rest.take(k - 1));
        assert(!first.packet.is_keyframe_of(state.video_index));
        assert forall|j: int| 0 <= j < k - 1 implies !(#[trigger] rest[j]).packet.is_keyframe_of(
            next.video_index,
        ) by {
            assert(rest[j] == trace[j + 1]);
        }
        assert(rest[k - 1] == trace[k]);
        lemma_first_video_keyframe_captured(next, rest, k - 1);
    }
}

/// A scan that meets no keyframe of the video stream captures no video
/// timestamp.  Unless it fails on a malformed timestamp of the audio stream,
/// it reports that the video stream gave no timestamp, whatever it captured
/// for the audio stream.
pub proof fn lemma_video_never_found(state: ScanState, trace: Seq<Observation>)
    requires
        state.video_pts is None,
        forall|j: int|
            0 <= j < trace.len() ==> !(#[trigger] trace[j]).packet.is_keyframe_of(
                state.video_index,
            ),
    ensures
        state.scan(trace) matches Ok(end) ==> end.video_pts is None,
        state.scan(trace) is Ok ==> state.scan_delay(trace) == Err::<int, ErrorView>(
            ErrorView::other(pts_not_found_message("video"@)),
        ),
        state.scan(trace) is Err ==> state.scan_delay(trace) == Err::<int, ErrorView>(
            ErrorView::other(invalid_pts_message()),
        ),
    decreases trace.len(),
{
    if trace.len() > 0 && !state.aborts_on(trace[0].packet) {
        let rest = trace.drop_first();
        let next = state.after(trace[0].packet, trace[0].decodable);
        assert forall|j: int| 0 <= j < rest.len() implies !(#[trigger] rest[j]).packet.is_keyframe_of(
            next.video_index,
        ) by {
            assert(rest[j] == trace[j + 1]);
        }
        lemma_video_never_found(next, rest);
    }
}

/// A scan in which the decoder rejects every keyframe of the audio stream,
/// or which meets none, captures no audio timestamp.
pub proof fn lemma_audio_never_found(state: ScanState, trace: Seq<Observation>)
    requires
        state.audio_pts is None,
        forall|j: int|
            0 <= j < trace.len() && (#[trigger] trace[j]).packet.is_keyframe_of(state.audio_index)
                ==> state.drop_broken_audio && !trace[j].decodable,
    ensures
        state.scan(trace) matches Ok(end) ==> end.audio_pts is None,
        state.scan_delay(trace) is Err,
    decreases trace.len(),
{
    if trace.len() > 0 && !state.aborts_on(trace[0].packet) {
        let rest = trace.drop_first();
        let next = state.after(trace[0].packet, trace[0].decodable);
        assert forall|j: int|
            0 <= j < rest.len() && (#[trigger] rest[j]).packet.is_keyframe_of(
                next.audio_index,
            ) implies next.drop_broken_audio && !rest[j].decodable by {
            assert(rest[j] == trace[j + 1]);
        }
        lemma_audio_never_found(next, rest);
    }
}

/// A scan fails only on a keyframe of one of the two streams with a
/// malformed timestamp.
pub proof fn lemma_scan_succeeds(state: ScanState, trace: Seq<Observation>)
    requires
        forall|j: int|
            0 <= j < trace.len() && ((#[trigger] trace[j]).packet.is_keyframe_of(
                state.video_index,
            ) || trace[j].packet.is_keyframe_of(state.audio_index)) ==> valid_pts(
                trace[j].packet.pts,
            ),
    ensures
        state.scan(trace) is Ok,
    decreases trace.len(),
{
    if !state.complete() && trace.len() > 0 {
        let rest = trace.drop_first();
        let next = state.after(trace[0].packet, trace[0].decodable);
        assert forall|j: int|
            0 <= j < rest.len() && ((#[trigger] rest[j]).packet.is_keyframe_of(next.video_index)
                || rest[j].packet.is_keyframe_of(next.audio_index)) implies valid_pts(
            rest[j].packet.pts,
        ) by {
            assert(rest[j] == trace[j + 1]);
        }
        lemma_scan_succeeds(next, rest);
    }
}

} // verus!
