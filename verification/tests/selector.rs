use tsdelay::stream::{find_streams, Discard, MediaType, Stream};

fn catalog(kinds: &[(MediaType, i32)]) -> Vec<Stream> {
    let mut streams: Vec<Stream> = Vec::new();
    for (position, (kind, id)) in kinds.iter().enumerate() {
        streams.push(Stream::new(*kind, *id, position as i32));
    }
    streams
}

fn policies(streams: &[Stream]) -> Vec<Discard> {
    streams.iter().map(|s| s.discard).collect()
}

#[test]
fn single_pair_is_selected_without_identifiers() {
    let mut streams = catalog(&[(MediaType::Video, 0x100), (MediaType::Audio, 0x110)]);
    let chosen = find_streams(&mut streams, None, None).unwrap();
    assert_eq!(chosen, (0, 1));
    assert_eq!(policies(&streams), vec![Discard::Default, Discard::Default]);
}

#[test]
fn single_pair_is_selected_in_either_order_among_other_streams() {
    let mut streams = catalog(&[
        (MediaType::Other, 0x1),
        (MediaType::Audio, 0x110),
        (MediaType::Other, 0x2),
        (MediaType::Video, 0x100),
    ]);
    let chosen = find_streams(&mut streams, None, None).unwrap();
    assert_eq!(chosen, (3, 1));
    assert_eq!(
        policies(&streams),
        vec![Discard::All, Discard::Default, Discard::All, Discard::Default]
    );
}

#[test]
fn first_unconstrained_audio_stream_wins() {
    let mut streams = catalog(&[
        (MediaType::Video, 0x100),
        (MediaType::Audio, 0x110),
        (MediaType::Audio, 0x111),
    ]);
    let chosen = find_streams(&mut streams, None, None).unwrap();
    assert_eq!(chosen, (0, 1));
    assert_eq!(policies(&streams), vec![Discard::Default, Discard::Default, Discard::All]);
}

#[test]
fn first_audio_stream_with_the_wanted_identifier_wins() {
    let mut streams = catalog(&[
        (MediaType::Audio, 0x111),
        (MediaType::Video, 0x100),
        (MediaType::Audio, 0x110),
        (MediaType::Audio, 0x110),
    ]);
    let chosen = find_streams(&mut streams, None, Some(0x110)).unwrap();
    assert_eq!(chosen, (1, 2));
    assert_eq!(
        policies(&streams),
        vec![Discard::All, Discard::Default, Discard::Default, Discard::All]
    );
}

#[test]
fn first_video_stream_with_the_wanted_identifier_wins() {
    let mut streams = catalog(&[
        (MediaType::Video, 0x100),
        (MediaType::Video, 0x101),
        (MediaType::Audio, 0x110),
        (MediaType::Video, 0x101),
    ]);
    let chosen = find_streams(&mut streams, Some(0x101), None).unwrap();
    assert_eq!(chosen, (1, 2));
    assert_eq!(
        policies(&streams),
        vec![Discard::All, Discard::Default, Discard::Default, Discard::All]
    );
}

#[test]
fn selection_keeps_type_identifier_and_index() {
    let mut streams = catalog(&[(MediaType::Audio, 7), (MediaType::Video, 8), (MediaType::Other, 9)]);
    find_streams(&mut streams, None, None).unwrap();
    assert_eq!(streams.len(), 3);
    assert_eq!((streams[0].media_type, streams[0].id, streams[0].index), (MediaType::Audio, 7, 0));
    assert_eq!((streams[1].media_type, streams[1].id, streams[1].index), (MediaType::Video, 8, 1));
    assert_eq!((streams[2].media_type, streams[2].id, streams[2].index), (MediaType::Other, 9, 2));
}

#[test]
fn an_identifier_of_the_other_kind_does_not_match() {
    let mut streams = catalog(&[(MediaType::Video, 0x100), (MediaType::Audio, 0x110)]);
    let e = find_streams(&mut streams, Some(0x110), None).unwrap_err();
    assert_eq!(e.description(), "find_stream(): Video stream not found - PID 0x 110");
}

#[test]
fn a_negative_identifier_matches_no_wanted_identifier() {
    let mut streams = catalog(&[(MediaType::Video, -1), (MediaType::Audio, 0x110)]);
    assert!(find_streams(&mut streams, Some(0xffff), None).is_err());
    let mut streams = catalog(&[(MediaType::Video, -1), (MediaType::Audio, 0x110)]);
    assert_eq!(find_streams(&mut streams, None, None).unwrap(), (0, 1));
}

#[test]
fn missing_video_stream_is_reported_without_identifier() {
    let mut streams = catalog(&[(MediaType::Audio, 0x110)]);
    let e = find_streams(&mut streams, None, None).unwrap_err();
    assert_eq!(e.description(), "find_stream(): Video stream not found");
    assert!(e.source().is_none());
}

#[test]
fn missing_video_stream_is_reported_with_identifier() {
    let mut streams = catalog(&[(MediaType::Video, 0x100), (MediaType::Audio, 0x110)]);
    let e = find_streams(&mut streams, Some(0x1ff), Some(0x110)).unwrap_err();
    let expected = format!("find_stream(): {} stream not found{}", "Video", format!(" - PID 0x{:>4x}", 0x1ffu16));
    assert_eq!(e.description(), expected);
    assert_eq!(e.description(), "find_stream(): Video stream not found - PID 0x 1ff");
}

#[test]
fn missing_audio_stream_is_reported_without_identifier() {
    let mut streams = catalog(&[(MediaType::Video, 0x100), (MediaType::Other, 0x120)]);
    let e = find_streams(&mut streams, None, None).unwrap_err();
    assert_eq!(e.description(), "find_stream(): Audio stream not found");
}

#[test]
fn missing_audio_stream_is_reported_with_identifier() {
    let mut streams = catalog(&[(MediaType::Video, 0x100), (MediaType::Audio, 0x110)]);
    let e = find_streams(&mut streams, None, Some(0x1abc)).unwrap_err();
    assert_eq!(e.description(), "find_stream(): Audio stream not found - PID 0x1abc");
}

#[test]
fn missing_video_is_reported_before_missing_audio() {
    let mut streams = catalog(&[(MediaType::Other, 1)]);
    let e = find_streams(&mut streams, Some(5), Some(6)).unwrap_err();
    assert_eq!(e.description(), "find_stream(): Video stream not found - PID 0x   5");
    let mut empty: Vec<Stream> = Vec::new();
    let e = find_streams(&mut empty, None, None).unwrap_err();
    assert_eq!(e.description(), "find_stream(): Video stream not found");
    assert!(empty.is_empty());
}

#[test]
fn policies_are_set_when_selection_fails() {
    let mut streams = catalog(&[
        (MediaType::Video, 0x100),
        (MediaType::Video, 0x101),
        (MediaType::Other, 0x120),
    ]);
    assert!(find_streams(&mut streams, None, None).is_err());
    assert_eq!(policies(&streams), vec![Discard::Default, Discard::All, Discard::All]);
}

#[test]
fn a_suppressed_stream_can_be_chosen_again() {
    let mut streams = catalog(&[(MediaType::Video, 0x100), (MediaType::Audio, 0x110), (MediaType::Audio, 0x111)]);
    find_streams(&mut streams, None, Some(0x111)).unwrap();
    assert_eq!(policies(&streams), vec![Discard::Default, Discard::All, Discard::Default]);
    find_streams(&mut streams, None, Some(0x110)).unwrap();
    assert_eq!(policies(&streams), vec![Discard::Default, Discard::Default, Discard::All]);
}

#[test]
fn stream_policy_setters_change_only_the_policy() {
    let mut stream = Stream::new(MediaType::Audio, 0x110, 4);
    assert_eq!(stream.discard, Discard::Default);
    stream.discard_all();
    assert_eq!(stream, Stream { media_type: MediaType::Audio, id: 0x110, index: 4, discard: Discard::All });
    stream.discard_default();
    assert_eq!(stream.discard, Discard::Default);
    stream.set_discard(Discard::All);
    assert_eq!(stream.discard, Discard::All);
    assert_eq!((stream.media_type, stream.id, stream.index), (MediaType::Audio, 0x110, 4));
}

#[test]
fn stream_match_reads_kind_and_identifier() {
    let stream = Stream::new(MediaType::Video, 0x100, 0);
    assert!(stream.is_match(MediaType::Video, None));
    assert!(stream.is_match(MediaType::Video, Some(0x100)));
    assert!(!stream.is_match(MediaType::Video, Some(0x101)));
    assert!(!stream.is_match(MediaType::Audio, None));
    assert!(!stream.is_match(MediaType::Audio, Some(0x100)));
}
