//! Converts an Ogg-encapsulated Opus stream into what a Core Audio Format
//! container is to hold: the audio description, the priming frame count
//! and the audio packets.
//!
//! No audio is decoded or re-encoded. The crate reads the packets of the
//! stream, decodes the Opus identification header and the comment header,
//! derives the container's audio description from the first, and hands
//! the audio packets on as they are.
//! The conversion is sequenced by a state machine that answers every
//! packet of the stream with the one thing the container writer has to do
//! next, so that it can be driven packet by packet or run as a whole.

pub mod conversion;
pub mod cursor;
pub mod demux;
pub mod description;
pub mod error;
pub mod head;
pub mod tags;

pub use conversion::{convert, convert_stream, Conversion, Directive, Phase};
pub use cursor::ByteCursor;
pub use demux::{PacketEvent, PacketSource};
pub use description::AudioDescription;
pub use error::{ConvertError, DemuxError, FormatError};
pub use head::OpusHead;
pub use tags::OpusTags;
