//! A demultiplexed packet, as far as the measurement reads it.

use vstd::prelude::*;
use crate::clock::{is_valid_pts, valid_pts, PTS_EXCESS_MASK};
use crate::error::{Error, ErrorView};

verus! {

/// One packet handed out by the demultiplexer.
#[derive(Clone, Copy, Debug, PartialEq, Eq, Structural)]
pub struct Packet {
    /// The `index` of the stream that the packet belongs to.
    pub stream_index: i32,
    /// Whether decoding can start at this packet.
    pub keyframe: bool,
    /// The presentation timestamp: a sample of the 33-bit clock.
    pub pts: i64,
}

/// The message of the error for a malformed timestamp.
pub open spec fn invalid_pts_message() -> Seq<char> {
    "check_pts(): Detected invalid PTS"@
}

impl Packet {
    /// A packet of the stream numbered `stream_index`.
    pub fn new(stream_index: i32, keyframe: bool, pts: i64) -> (result: Packet)
        ensures
            result == (Packet { stream_index, keyframe, pts }),
    {
        Packet { stream_index, keyframe, pts }
    }

    /// Whether the packet belongs to the stream numbered `index` and decoding
    /// can start at it.
    pub open spec fn is_keyframe_of(self, index: i32) -> bool {
        self.stream_index == index && self.keyframe
    }

    /// Executable form of [`Packet::is_keyframe_of`].
    pub fn is_keyframe(&self, index: i32) -> (result: bool)
        ensures
            result == self.is_keyframe_of(index),
    {
        self.stream_index == index && self.keyframe
    }

    /// The presentation timestamp.
    pub fn pts(&self) -> (result: i64)
        ensures
            result == self.pts,
    {
        self.pts
    }

    /// Accepts the packet's timestamp if it is a sample of the 33-bit clock:
    /// not negative and with no bit above bit 32 set.
    pub fn check_pts(&self) -> (result: Result<(), Error>)
        ensures
            result is Ok <==> valid_pts(self.pts),
            result is Ok <==> self.pts & PTS_EXCESS_MASK == 0,
            result matches Err(e) ==> e@ == ErrorView::other(invalid_pts_message()),
    {
        if is_valid_pts(self.pts) {
            Ok(())
        } else {
            Err(Error::new("check_pts(): Detected invalid PTS"))
        }
    }
}

} // verus!
