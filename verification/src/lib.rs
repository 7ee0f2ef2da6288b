//! Audio/video synchronisation offset of an MPEG transport stream.
//!
//! The crate holds the decision logic of the measurement: which pair of
//! elementary streams is observed, which packet of each stream supplies the
//! presentation timestamp, when a timestamp is well formed, how a rollover of
//! the 33-bit clock between the two samples is undone, and how the resulting
//! tick count is scaled into the requested unit.  Demultiplexing and decoding
//! are left to the caller, who hands over plain values.

pub mod error;
pub mod text;
pub mod stream;
pub mod clock;
pub mod packet;
pub mod scan;
pub mod opt;
pub mod util;
