//! The packet source: an Ogg demuxer over a byte buffer.

use crate::error::DemuxError;
use ogg::{OggReadError, PacketReader};
use std::io::Cursor;
use vstd::prelude::*;

verus! {

/// An Ogg demuxer that owns the bytes it reads: `ogg::PacketReader` over a
/// `std::io::Cursor`.
///
/// The demuxer is a lazy, forward-only sequence of packet payloads. Its
/// state is opaque; `pending` and `closing` name what it will hand out.
#[verifier::external_body]
pub struct PacketSource {
    reader: PacketReader<Cursor<Vec<u8>>>,
}

/// The payloads that `source` has yet to hand out, in stream order, up to
/// the point where it first answers with something other than a packet.
pub uninterp spec fn pending(source: PacketSource) -> Seq<Seq<u8>>;

/// How `source` answers once no packet is pending: `None` when the stream
/// ends there, or the fault that stops the demuxer.
pub uninterp spec fn closing(source: PacketSource) -> Option<DemuxError>;

/// What a demuxer opened on the Ogg stream `input` holds: the payloads it
/// will hand out, and how it closes after them.
pub uninterp spec fn demuxed(input: Seq<u8>) -> (Seq<Seq<u8>>, Option<DemuxError>);

/// What one request to the packet source brought.
#[derive(Debug, PartialEq, Eq)]
pub enum PacketEvent {
    /// The payload of the next logical packet.
    Packet(Vec<u8>),
    /// The stream has ended; no packet is left.
    EndOfStream,
    /// The container could not be read any further.
    Fault(DemuxError),
}

/// A `PacketEvent` with the payload as a sequence of bytes.
pub enum PacketEventView {
    Packet(Seq<u8>),
    EndOfStream,
    Fault(DemuxError),
}

impl View for PacketEvent {
    type V = PacketEventView;

    open spec fn view(&self) -> PacketEventView {
        match self {
            PacketEvent::Packet(payload) => PacketEventView::Packet(payload@),
            PacketEvent::EndOfStream => PacketEventView::EndOfStream,
            PacketEvent::Fault(error) => PacketEventView::Fault(*error),
        }
    }
}

/// The event that the next request to a source brings, given what it has
/// pending and how it closes.
pub open spec fn next_event_of(
    packets: Seq<Seq<u8>>,
    close: Option<DemuxError>,
) -> PacketEventView {
    if packets.len() > 0 {
        PacketEventView::Packet(packets[0])
    } else {
        match close {
            None => PacketEventView::EndOfStream,
            Some(error) => PacketEventView::Fault(error),
        }
    }
}

/// `ogg::PacketReader::new` over a `std::io::Cursor` that owns `input`.
/// The constructor stores the reader at the start of the bytes and reads
/// nothing. Trusted: what the reader will hand out, and how it will close,
/// depend on the bytes of `input` and on nothing else.
#[verifier::external_body]
fn open_reader(input: Vec<u8>) -> (source: PacketSource)
    ensures
        (pending(source), closing(source)) == demuxed(input@),
{
    PacketSource { reader: PacketReader::new(Cursor::new(input)) }
}

/// `ogg::PacketReader::read_packet`, which returns the next packet of the
/// stream, `Ok(None)` when the physical stream has ended, or an error.
/// The packet is handed out as its payload, the error as the variant of
/// `DemuxError` of the same meaning. Trusted: a packet that comes back is
/// the first pending one and leaves the others pending, with the same
/// closing; anything else comes back only when no packet is pending, and
/// is the closing.
#[verifier::external_body]
fn read_event(source: &mut PacketSource) -> (event: PacketEvent)
    ensures
        event@ == next_event_of(pending(*old(source)), closing(*old(source))),
        event is Packet ==> pending(*final(source)) == pending(*old(source)).skip(1),
        event is Packet ==> closing(*final(source)) == closing(*old(source)),
{
    match source.reader.read_packet() {
        Ok(Some(packet)) => PacketEvent::Packet(packet.data),
        Ok(None) => PacketEvent::EndOfStream,
        Err(error) => PacketEvent::Fault(
            match error {
                OggReadError::NoCapturePatternFound => DemuxError::NoCapturePattern,
                OggReadError::InvalidStreamStructVer(v) => DemuxError::InvalidStreamVersion(v),
                OggReadError::HashMismatch(a, b) => DemuxError::HashMismatch(a, b),
                OggReadError::ReadError(_) => DemuxError::Io,
                OggReadError::InvalidData => DemuxError::InvalidData,
            },
        ),
    }
}

impl PacketSource {
    /// A demuxer at the start of `input`. Nothing is read until the first
    /// request.
    pub fn open(input: Vec<u8>) -> (source: PacketSource)
        ensures
            (pending(source), closing(source)) == demuxed(input@),
    {
        open_reader(input)
    }

    /// Asks the demuxer for the next packet and says what came of it.
    ///
    /// While packets are pending, the event is the first of them, and the
    /// rest stay pending. Once none is pending, the event is the end of
    /// the stream or the fault that closes it.
    pub fn next_event(&mut self) -> (event: PacketEvent)
        ensures
            event@ == next_event_of(pending(*old(self)), closing(*old(self))),
            event is Packet ==> pending(*final(self)) == pending(*old(self)).skip(1),
            event is Packet ==> closing(*final(self)) == closing(*old(self)),
    {
        read_event(self)
    }
}

} // verus!
