//! The elementary streams of a container and the choice of the video and
//! audio stream that are observed.

use vstd::prelude::*;
use crate::error::{Error, ErrorView};
use crate::text::{hex_digits, padded_left, to_hex_width4};

verus! {

/// What an elementary stream carries.
#[derive(Clone, Copy, Debug, PartialEq, Eq, Structural)]
pub enum MediaType {
    Video,
    Audio,
    /// Anything that is neither video nor audio.
    Other,
}

/// Whether the demultiplexer hands out the packets of a stream.
#[derive(Clone, Copy, Debug, PartialEq, Eq, Structural)]
pub enum Discard {
    /// The stream's packets are delivered.
    Default,
    /// The stream's packets are suppressed.
    All,
}

/// One elementary stream of a container.
#[derive(Clone, Copy, Debug, PartialEq, Eq, Structural)]
pub struct Stream {
    /// What the stream carries.
    pub media_type: MediaType,
    /// The stream's identifier inside the container (its PID).
    pub id: i32,
    /// The number by which packets refer to the stream.
    pub index: i32,
    /// Whether the stream's packets are delivered.
    pub discard: Discard,
}

impl Stream {
    /// A stream whose packets are delivered.
    pub fn new(media_type: MediaType, id: i32, index: i32) -> (result: Stream)
        ensures
            result == (Stream { media_type, id, index, discard: Discard::Default }),
    {
        Stream { media_type, id, index, discard: Discard::Default }
    }

    /// Sets the delivery policy and leaves the rest alone.
    pub fn set_discard(&mut self, discard: Discard)
        ensures
            *final(self) == (Stream { discard, ..*old(self) }),
    {
        self.discard = discard;
    }

    /// Has the stream's packets delivered.
    pub fn discard_default(&mut self)
        ensures
            *final(self) == (Stream { discard: Discard::Default, ..*old(self) }),
    {
        self.set_discard(Discard::Default);
    }

    /// Has the stream's packets suppressed.
    pub fn discard_all(&mut self)
        ensures
            *final(self) == (Stream { discard: Discard::All, ..*old(self) }),
    {
        self.set_discard(Discard::All);
    }

    /// Whether the stream carries `kind` and has the wanted identifier, where
    /// one is wanted.
    pub open spec fn matches(self, kind: MediaType, want: Option<u16>) -> bool {
        self.media_type == kind && (want is None || want->Some_0 as int == self.id as int)
    }

    /// Executable form of [`Stream::matches`].
    pub fn is_match(&self, kind: MediaType, want: Option<u16>) -> (result: bool)
        ensures
            result == self.matches(kind, want),
    {
        self.media_type == kind && match want {
            None => true,
            Some(id) => id as i32 == self.id,
        }
    }
}

/// Whether position `i` holds the first stream of the catalog, in catalog
/// order, that carries `kind` and has the wanted identifier.
pub open spec fn is_first_match(
    streams: Seq<Stream>,
    kind: MediaType,
    want: Option<u16>,
    i: int,
) -> bool {
    &&& 0 <= i < streams.len()
    &&& streams[i].matches(kind, want)
    &&& forall|j: int| 0 <= j < i ==> !#[trigger] streams[j].matches(kind, want)
}

/// The position of the first matching stream, if any stream matches.
pub open spec fn first_match(streams: Seq<Stream>, kind: MediaType, want: Option<u16>) -> Option<
    int,
> {
    if exists|i: int| is_first_match(streams, kind, want, i) {
        Some(choose|i: int| is_first_match(streams, kind, want, i))
    } else {
        None
    }
}

/// The delivery policy that selection gives the stream at position `i`: the
/// chosen video stream and the chosen audio stream are delivered, every other
/// stream is suppressed.
pub open spec fn policy_at(
    streams: Seq<Stream>,
    video_id: Option<u16>,
    audio_id: Option<u16>,
    i: int,
) -> Discard {
    if is_first_match(streams, MediaType::Video, video_id, i) || is_first_match(
        streams,
        MediaType::Audio,
        audio_id,
        i,
    ) {
        Discard::Default
    } else {
        Discard::All
    }
}

/// The catalog after selection: the same streams, each with the policy that
/// [`policy_at`] gives it.
pub open spec fn marked(streams: Seq<Stream>, video_id: Option<u16>, audio_id: Option<u16>) -> Seq<
    Stream,
> {
    Seq::new(
        streams.len(),
        |i: int| Stream { discard: policy_at(streams, video_id, audio_id, i), ..streams[i] },
    )
}

/// The message of the error for a stream kind of which no stream matched.
pub open spec fn stream_not_found_message(kind: Seq<char>, pid: Option<u16>) -> Seq<char> {
    "find_stream(): "@ + kind + " stream not found"@ + match pid {
        Some(id) => " - PID 0x"@ + padded_left(hex_digits(id as nat), 4),
        None => Seq::empty(),
    }
}

/// The outcome of selection: the positions of the chosen video and audio
/// stream, or the error for the first kind, video before audio, of which no
/// stream matched.
pub open spec fn selection(streams: Seq<Stream>, video_id: Option<u16>, audio_id: Option<u16>)
    -> Result<(int, int), ErrorView> {
    match (
        first_match(streams, MediaType::Video, video_id),
        first_match(streams, MediaType::Audio, audio_id),
    ) {
        (None, _) => Err(ErrorView::other(stream_not_found_message("Video"@, video_id))),
        (Some(_), None) => Err(ErrorView::other(stream_not_found_message("Audio"@, audio_id))),
        (Some(v), Some(a)) => Ok((v, a)),
    }
}

/// The error for a missing video stream differs from the error for a missing
/// audio stream, whatever identifiers were wanted.
pub proof fn lemma_stream_messages_differ(video_id: Option<u16>, audio_id: Option<u16>)
    ensures
        stream_not_found_message("Video"@, video_id) != stream_not_found_message(
            "Audio"@,
            audio_id,
        ),
{
    reveal_strlit("find_stream(): ");
    reveal_strlit("Video");
    reveal_strlit("Audio");
    assert(stream_not_found_message("Video"@, video_id)[15] == 'V');
    assert(stream_not_found_message("Audio"@, audio_id)[15] == 'A');
}

/// At most one position is the first match, and [`first_match`] names it.
pub proof fn lemma_first_match_unique(
    streams: Seq<Stream>,
    kind: MediaType,
    want: Option<u16>,
    i: int,
)
    requires
        is_first_match(streams, kind, want, i),
    ensures
        first_match(streams, kind, want) == Some(i),
{
    let c = choose|k: int| is_first_match(streams, kind, want, k);
    assert(is_first_match(streams, kind, want, c));
    if c < i {
        assert(streams[c].matches(kind, want));
    } else if i < c {
        assert(streams[i].matches(kind, want));
    }
}

/// [`first_match`] is `None` exactly when no stream of the catalog matches.
pub proof fn lemma_first_match_none(streams: Seq<Stream>, kind: MediaType, want: Option<u16>)
    ensures
        first_match(streams, kind, want) is None <==> forall|j: int|
            0 <= j < streams.len() ==> !#[trigger] streams[j].matches(kind, want),
        first_match(streams, kind, want) matches Some(i) ==> is_first_match(
            streams,
            kind,
            want,
            i,
        ),
{
    if exists|j: int| 0 <= j < streams.len() && #[trigger] streams[j].matches(kind, want) {
        let j = choose|j: int| 0 <= j < streams.len() && #[trigger] streams[j].matches(kind, want);
        lemma_least_match(streams, kind, want, j);
    }
}

proof fn lemma_least_match(streams: Seq<Stream>, kind: MediaType, want: Option<u16>, j: int)
    requires
        0 <= j < streams.len(),
        streams[j].matches(kind, want),
    ensures
        exists|i: int| 0 <= i <= j && is_first_match(streams, kind, want, i),
    decreases j,
{
    if exists|k: int| 0 <= k < j && #[trigger] streams[k].matches(kind, want) {
        let k = choose|k: int| 0 <= k < j && #[trigger] streams[k].matches(kind, want);
        lemma_least_match(streams, kind, want, k);
    } else {
        assert(is_first_match(streams, kind, want, j));
    }
}

fn stream_not_found(kind: &str, pid: Option<u16>) -> (result: Error)
    ensures
        result@ == ErrorView::other(stream_not_found_message(kind@, pid)),
{
    let mut msg = String::from_str("find_stream(): ");
    msg.append(kind);
    msg.append(" stream not found");
    match pid {
        Some(id) => {
            msg.append(" - PID 0x");
            let hex = to_hex_width4(id);
            msg.append(hex.as_str());
        },
        None => {},
    }
    proof {
        assert(msg@ =~= stream_not_found_message(kind@, pid));
    }
    Error::new(msg.as_str())
}

/// Chooses the video and the audio stream to observe and sets the delivery
/// policy of every stream of the catalog.
///
/// The catalog is walked once, in order.  The first video stream that has the
/// wanted identifier, or the first video stream at all where none is wanted,
/// is chosen; likewise for audio.  The two chosen streams are delivered and
/// every other stream is suppressed, whether or not the call succeeds.  The
/// call returns the positions of the chosen streams in the catalog, and fails
/// where no video stream or no audio stream was chosen, naming video first.
pub fn find_streams(streams: &mut Vec<Stream>, video_id: Option<u16>, audio_id: Option<u16>) -> (result:
    Result<(usize, usize), Error>)
    ensures
        final(streams)@ == marked(old(streams)@, video_id, audio_id),
        match result {
            Ok((v, a)) => {
                &&& selection(old(streams)@, video_id, audio_id) == Ok::<(int, int), ErrorView>(
                    (v as int, a as int),
                )
                &&& is_first_match(old(streams)@, MediaType::Video, video_id, v as int)
                &&& is_first_match(old(streams)@, MediaType::Audio, audio_id, a as int)
            },
            Err(e) => selection(old(streams)@, video_id, audio_id) == Err::<(int, int), ErrorView>(
                e@,
            ),
        },
{
    let ghost before = streams@;
    let mut video_stream: Option<usize> = None;
    let mut audio_stream: Option<usize> = None;
    let mut i: usize = 0;
    while i < streams.len()
        invariant
            i <= streams@.len(),
            streams@.len() == before.len(),
            forall|k: int| i <= k < before.len() ==> streams@[k] == before[k],
            forall|k: int|
                0 <= k < i ==> streams@[k] == (Stream {
                    discard: policy_at(before, video_id, audio_id, k),
                    ..before[k]
                }),
            match video_stream {
                Some(v) => v < i && is_first_match(before, MediaType::Video, video_id, v as int),
                None => forall|k: int|
                    0 <= k < i ==> !#[trigger] before[k].matches(MediaType::Video, video_id),
            },
            match audio_stream {
                Some(a) => a < i && is_first_match(before, MediaType::Audio, audio_id, a as int),
                None => forall|k: int|
                    0 <= k < i ==> !#[trigger] before[k].matches(MediaType::Audio, audio_id),
            },
        decreases streams@.len() - i,
    {
        let mut stream = streams[i];
        proof {
            if let Some(v) = video_stream {
                assert(before[v as int].matches(MediaType::Video, video_id));
            }
            if let Some(a) = audio_stream {
                assert(before[a as int].matches(MediaType::Audio, audio_id));
            }
        }
        if video_stream.is_none() && stream.is_match(MediaType::Video, video_id) {
            stream.discard_default();
            video_stream = Some(i);
        } else if audio_stream.is_none() && stream.is_match(MediaType::Audio, audio_id) {
            stream.discard_default();
            audio_stream = Some(i);
        } else {
            stream.discard_all();
        }
        streams.set(i, stream);
        i += 1;
    }
    proof {
        assert(streams@ =~= marked(before, video_id, audio_id));
        lemma_first_match_none(before, MediaType::Video, video_id);
        lemma_first_match_none(before, MediaType::Audio, audio_id);
        if let Some(v) = video_stream {
            lemma_first_match_unique(before, MediaType::Video, video_id, v as int);
        }
        if let Some(a) = audio_stream {
            lemma_first_match_unique(before, MediaType::Audio, audio_id, a as int);
        }
    }
    match (video_stream, audio_stream) {
        (None, _) => Err(stream_not_found("Video", video_id)),
        (Some(_), None) => Err(stream_not_found("Audio", audio_id)),
        (Some(v), Some(a)) => Ok((v, a)),
    }
}

/// In a catalog with exactly one video stream and exactly one audio stream,
/// selection without wanted identifiers chooses these two, has them
/// delivered and suppresses every other stream.
pub proof fn lemma_single_pair_selected(streams: Seq<Stream>, v: int, a: int)
    requires
        0 <= v < streams.len(),
        0 <= a < streams.len(),
        forall|i: int|
            0 <= i < streams.len() ==> ((#[trigger] streams[i]).media_type == MediaType::Video
                <==> i == v),
        forall|i: int|
            0 <= i < streams.len() ==> ((#[trigger] streams[i]).media_type == MediaType::Audio
                <==> i == a),
    ensures
        selection(streams, None, None) == Ok::<(int, int), ErrorView>((v, a)),
        forall|i: int|
            0 <= i < streams.len() ==> (#[trigger] marked(streams, None, None)[i]).discard == if i
                == v || i == a {
                Discard::Default
            } else {
                Discard::All
            },
{
    assert(streams[v].matches(MediaType::Video, None));
    assert(streams[a].matches(MediaType::Audio, None));
    assert(is_first_match(streams, MediaType::Video, None, v));
    assert(is_first_match(streams, MediaType::Audio, None, a));
    lemma_first_match_unique(streams, MediaType::Video, None, v);
    lemma_first_match_unique(streams, MediaType::Audio, None, a);
}

/// First match wins: of two video streams that both have the wanted video
/// identifier, or two audio streams that both have the wanted audio
/// identifier, the later one is not chosen and is suppressed.
pub proof fn lemma_first_match_wins(
    streams: Seq<Stream>,
    video_id: Option<u16>,
    audio_id: Option<u16>,
    i: int,
    j: int,
)
    requires
        0 <= i < j < streams.len(),
        (streams[i].matches(MediaType::Video, video_id) && streams[j].matches(
            MediaType::Video,
            video_id,
        )) || (streams[i].matches(MediaType::Audio, audio_id) && streams[j].matches(
            MediaType::Audio,
            audio_id,
        )),
    ensures
        marked(streams, video_id, audio_id)[j].discard == Discard::All,
        selection(streams, video_id, audio_id) matches Ok((v, a)) ==> v != j && a != j,
{
    lemma_first_match_none(streams, MediaType::Video, video_id);
    lemma_first_match_none(streams, MediaType::Audio, audio_id);
    if streams[j].media_type == MediaType::Video {
        assert(streams[i].matches(MediaType::Video, video_id));
    } else {
        assert(streams[i].matches(MediaType::Audio, audio_id));
    }
}

/// A catalog without an audio stream fails selection with the error for a
/// missing audio stream, provided that a video stream is chosen: a missing
/// video stream is reported first.
pub proof fn lemma_no_audio_stream(
    streams: Seq<Stream>,
    video_id: Option<u16>,
    audio_id: Option<u16>,
)
    requires
        forall|i: int|
            0 <= i < streams.len() ==> (#[trigger] streams[i]).media_type != MediaType::Audio,
        exists|i: int|
            0 <= i < streams.len() && (#[trigger] streams[i]).matches(MediaType::Video, video_id),
    ensures
        selection(streams, video_id, audio_id) == Err::<(int, int), ErrorView>(
            ErrorView::other(stream_not_found_message("Audio"@, audio_id)),
        ),
{
    lemma_first_match_none(streams, MediaType::Video, video_id);
    lemma_first_match_none(streams, MediaType::Audio, audio_id);
    assert forall|j: int| 0 <= j < streams.len() implies !(#[trigger] streams[j]).matches(
        MediaType::Audio,
        audio_id,
    ) by {}
}

/// After selection exactly the chosen streams are delivered: where selection
/// succeeds, the chosen video stream and the chosen audio stream are the only
/// streams of the catalog that are not suppressed.
pub proof fn lemma_selected_pair_delivered(
    streams: Seq<Stream>,
    video_id: Option<u16>,
    audio_id: Option<u16>,
)
    ensures
        selection(streams, video_id, audio_id) matches Ok((v, a)) ==> {
            &&& 0 <= v < streams.len()
            &&& 0 <= a < streams.len()
            &&& v != a
            &&& streams[v].media_type == MediaType::Video
            &&& streams[a].media_type == MediaType::Audio
            &&& forall|i: int|
                0 <= i < streams.len() ==> ((#[trigger] marked(
                    streams,
                    video_id,
                    audio_id,
                )[i]).discard == Discard::Default <==> i == v || i == a)
        },
{
    lemma_first_match_none(streams, MediaType::Video, video_id);
    lemma_first_match_none(streams, MediaType::Audio, audio_id);
    if let Ok((v, a)) = selection(streams, video_id, audio_id) {
        assert forall|i: int| 0 <= i < streams.len() implies ((#[trigger] marked(
            streams,
            video_id,
            audio_id,
        )[i]).discard == Discard::Default <==> i == v || i == a) by {
            if is_first_match(streams, MediaType::Video, video_id, i) {
                lemma_first_match_unique(streams, MediaType::Video, video_id, i);
            }
            if is_first_match(streams, MediaType::Audio, audio_id, i) {
                lemma_first_match_unique(streams, MediaType::Audio, audio_id, i);
            }
        }
    }
}

} // verus!
