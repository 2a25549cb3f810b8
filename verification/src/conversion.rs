//! The conversion: which container work each packet of the stream calls for.

use crate::cursor::ByteCursor;
use crate::demux::{
    closing, demuxed, next_event_of, pending, PacketEvent, PacketEventView, PacketSource,
};
use crate::description::{opus_description, AudioDescription};
use crate::error::{ConvertError, DemuxError, FormatError};
use crate::head::{parse_head, OpusHead};
use crate::tags::{parse_tags, OpusTags};
use vstd::prelude::*;

verus! {

/// How far a conversion has come.
#[derive(Clone, Copy, Debug, PartialEq, Eq)]
pub enum Phase {
    /// No packet has been seen. The next one is the identification header.
    AwaitHeader,
    /// The identification header has been seen and decoded, with the
    /// result held here. The next packet is the comment header.
    AwaitComments(Result<OpusHead, FormatError>),
    /// Both headers have been seen. Every further packet is audio.
    Streaming,
    /// The conversion is over, by success or by failure.
    Closed,
}

/// What the container writer is to do in answer to one event.
#[derive(Debug, PartialEq, Eq)]
pub enum Directive {
    /// Nothing yet: more of the stream is needed first.
    Fetch,
    /// Start the container with this description and priming frame count.
    Open { description: AudioDescription, priming_frames: i32 },
    /// Add this payload as the next packet.
    Append(Vec<u8>),
    /// Complete the container. No packet follows.
    Finalize,
}

/// A `Directive` with the payload as a sequence of bytes.
pub enum DirectiveView {
    Fetch,
    Open { description: AudioDescription, priming_frames: i32 },
    Append(Seq<u8>),
    Finalize,
}

impl View for Directive {
    type V = DirectiveView;

    open spec fn view(&self) -> DirectiveView {
        match self {
            Directive::Fetch => DirectiveView::Fetch,
            Directive::Open { description, priming_frames } => DirectiveView::Open {
                description: *description,
                priming_frames: *priming_frames,
            },
            Directive::Append(payload) => DirectiveView::Append(payload@),
            Directive::Finalize => DirectiveView::Finalize,
        }
    }
}

/// The view of what `advance` answers with.
pub open spec fn answer_view(answer: Result<Directive, ConvertError>) -> Result<
    DirectiveView,
    ConvertError,
> {
    match answer {
        Ok(directive) => Ok(directive@),
        Err(error) => Err(error),
    }
}

/// The phase that follows `phase` on `event`.
///
/// A packet moves the conversion one phase on, or keeps it streaming. The
/// end of the stream, a fault, and a header that did not decode close it.
pub open spec fn next_phase(phase: Phase, event: PacketEventView) -> Phase {
    match (phase, event) {
        (Phase::AwaitHeader, PacketEventView::Packet(payload)) => Phase::AwaitComments(
            parse_head(payload),
        ),
        (Phase::AwaitComments(Ok(_)), PacketEventView::Packet(payload)) => {
            if parse_tags(payload) is Ok {
                Phase::Streaming
            } else {
                Phase::Closed
            }
        },
        (Phase::Streaming, PacketEventView::Packet(_)) => Phase::Streaming,
        _ => Phase::Closed,
    }
}

/// The answer to the second packet of a stream, given what decoding the
/// first packet as an identification header gave.
///
/// The packet is decoded as a comment header to see that it has the shape
/// of one; what it holds is not kept, and bytes behind the last comment
/// are not looked at. A fault in it is reported before one in the
/// identification header. With both headers sound, the container is
/// opened.
pub open spec fn answer_to_comments(
    head: Result<OpusHead, FormatError>,
    comments: Seq<u8>,
) -> Result<DirectiveView, ConvertError> {
    match (parse_tags(comments), head) {
        (Err(error), _) => Err(ConvertError::Format(error)),
        (Ok(_), Err(error)) => Err(ConvertError::Format(error)),
        (Ok(_), Ok(head)) => Ok(
            DirectiveView::Open {
                description: opus_description(head),
                priming_frames: head.preskip as i32,
            },
        ),
    }
}

/// The answer to `event` in `phase`.
///
/// The identification header is decoded when it arrives, but a fault in it
/// is reported only when the comment header has arrived too: a stream of
/// one packet is missing its comments, whatever that packet holds.
pub open spec fn answer(phase: Phase, event: PacketEventView) -> Result<
    DirectiveView,
    ConvertError,
> {
    match (phase, event) {
        (Phase::Closed, _) => Err(ConvertError::Closed),
        (_, PacketEventView::Fault(error)) => Err(ConvertError::Demux(error)),
        (Phase::AwaitHeader, PacketEventView::EndOfStream) => Err(ConvertError::MissingHeader),
        (Phase::AwaitHeader, PacketEventView::Packet(_)) => Ok(DirectiveView::Fetch),
        (Phase::AwaitComments(_), PacketEventView::EndOfStream) => Err(
            ConvertError::MissingComments,
        ),
        (Phase::AwaitComments(head), PacketEventView::Packet(payload)) => answer_to_comments(
            head,
            payload,
        ),
        (Phase::Streaming, PacketEventView::Packet(payload)) => Ok(DirectiveView::Append(payload)),
        (Phase::Streaming, PacketEventView::EndOfStream) => Ok(DirectiveView::Finalize),
    }
}

impl Phase {
    /// Takes one event from the packet source and says what the container
    /// writer is to do, and in which phase the conversion goes on.
    pub fn advance(self, event: PacketEvent) -> (step: (Phase, Result<Directive, ConvertError>))
        ensures
            step.0 == next_phase(self, event@),
            answer_view(step.1) == answer(self, event@),
    {
        match self {
            Phase::Closed => (Phase::Closed, Err(ConvertError::Closed)),
            Phase::AwaitHeader => match event {
                PacketEvent::Fault(error) => (Phase::Closed, Err(ConvertError::Demux(error))),
                PacketEvent::EndOfStream => (Phase::Closed, Err(ConvertError::MissingHeader)),
                PacketEvent::Packet(payload) => {
                    let mut rdr = ByteCursor::new(payload.as_slice());
                    let head = OpusHead::read(&mut rdr);
                    (Phase::AwaitComments(head), Ok(Directive::Fetch))
                },
            },
            Phase::AwaitComments(head) => match event {
                PacketEvent::Fault(error) => (Phase::Closed, Err(ConvertError::Demux(error))),
                PacketEvent::EndOfStream => (Phase::Closed, Err(ConvertError::MissingComments)),
                PacketEvent::Packet(payload) => {
                    let mut rdr = ByteCursor::new(payload.as_slice());
                    match (OpusTags::read(&mut rdr), head) {
                        (Err(error), _) => (Phase::Closed, Err(ConvertError::Format(error))),
                        (Ok(_), Err(error)) => (Phase::Closed, Err(ConvertError::Format(error))),
                        (Ok(_), Ok(head)) => (
                            Phase::Streaming,
                            Ok(
                                Directive::Open {
                                    description: AudioDescription::for_opus(&head),
                                    priming_frames: head.priming_frames(),
                                },
                            ),
                        ),
                    }
                },
            },
            Phase::Streaming => match event {
                PacketEvent::Fault(error) => (Phase::Closed, Err(ConvertError::Demux(error))),
                PacketEvent::EndOfStream => (Phase::Closed, Ok(Directive::Finalize)),
                PacketEvent::Packet(payload) => (Phase::Streaming, Ok(Directive::Append(payload))),
            },
        }
    }
}

/// The answers that a conversion in `phase` gives when it is fed, one event
/// at a time, a stream that hands out `packets` and then closes with
/// `close`: every answer up to and including the one that closes the
/// conversion.
pub open spec fn answers(phase: Phase, packets: Seq<Seq<u8>>, close: Option<DemuxError>) -> Seq<
    Result<DirectiveView, ConvertError>,
>
    decreases packets.len(),
{
    let event = next_event_of(packets, close);
    if packets.len() == 0 || next_phase(phase, event) == Phase::Closed {
        seq![answer(phase, event)]
    } else {
        seq![answer(phase, event)] + answers(next_phase(phase, event), packets.skip(1), close)
    }
}

/// Once both headers are in, every packet is answered by an `Append` of
/// that very payload, in the order of the packets, and the end of the
/// stream by `Finalize`.
pub proof fn lemma_streaming_appends_every_packet(audio: Seq<Seq<u8>>)
    ensures
        answers(Phase::Streaming, audio, None) == audio.map_values(
            |payload: Seq<u8>| Ok::<DirectiveView, ConvertError>(DirectiveView::Append(payload)),
        ) + seq![Ok::<DirectiveView, ConvertError>(DirectiveView::Finalize)],
    decreases audio.len(),
{
    if audio.len() > 0 {
        lemma_streaming_appends_every_packet(audio.skip(1));
    }
}

/// A stream of two headers and any number of audio packets is answered by
/// `Fetch`, by `Open` with the description and priming frame count of the
/// identification header, by one `Append` for each audio packet, and by
/// `Finalize`, in this order and with nothing else.
pub proof fn lemma_answers_of_a_stream(header: Seq<u8>, comments: Seq<u8>, audio: Seq<Seq<u8>>)
    requires
        parse_head(header) is Ok,
        parse_tags(comments) is Ok,
    ensures
        answers(Phase::AwaitHeader, seq![header, comments] + audio, None) == seq![
            Ok::<DirectiveView, ConvertError>(DirectiveView::Fetch),
            Ok::<DirectiveView, ConvertError>(
                DirectiveView::Open {
                    description: opus_description(parse_head(header)->Ok_0),
                    priming_frames: parse_head(header)->Ok_0.preskip as i32,
                },
            ),
        ] + audio.map_values(
            |payload: Seq<u8>| Ok::<DirectiveView, ConvertError>(DirectiveView::Append(payload)),
        ) + seq![Ok::<DirectiveView, ConvertError>(DirectiveView::Finalize)],
{
    let packets = seq![header, comments] + audio;
    assert(packets.skip(1).skip(1) =~= audio);
    reveal_with_fuel(answers, 3);
    lemma_streaming_appends_every_packet(audio);
}

/// A stream that ends after its first packet is answered by `Fetch` and
/// then by the error `MissingComments`: the container is never opened.
pub proof fn lemma_answers_without_comments(packet: Seq<u8>)
    ensures
        answers(Phase::AwaitHeader, seq![packet], None) == seq![
            Ok::<DirectiveView, ConvertError>(DirectiveView::Fetch),
            Err::<DirectiveView, ConvertError>(ConvertError::MissingComments),
        ],
{
    reveal_with_fuel(answers, 2);
}

/// What a container is to hold for one stream.
#[derive(Debug, PartialEq, Eq)]
pub struct Conversion {
    /// The audio description to open the container with.
    pub description: AudioDescription,
    /// The priming frame count to record.
    pub priming_frames: i32,
    /// The payloads of the audio packets, in stream order.
    pub packets: Vec<Vec<u8>>,
}

/// A `Conversion` with the payloads as sequences of bytes.
pub struct ConversionView {
    pub description: AudioDescription,
    pub priming_frames: i32,
    pub packets: Seq<Seq<u8>>,
}

impl View for Conversion {
    type V = ConversionView;

    open spec fn view(&self) -> ConversionView {
        ConversionView {
            description: self.description,
            priming_frames: self.priming_frames,
            packets: self.packets@.map_values(|payload: Vec<u8>| payload@),
        }
    }
}

/// The view of what `convert` returns.
pub open spec fn conversion_view(converted: Result<Conversion, ConvertError>) -> Result<
    ConversionView,
    ConvertError,
> {
    match converted {
        Ok(conversion) => Ok(conversion@),
        Err(error) => Err(error),
    }
}

/// The outcome of a stream that lacks one of its two headers: the fault
/// that cut it short, or else the name of the header that is missing.
pub open spec fn cut_short(close: Option<DemuxError>, missing: ConvertError) -> ConvertError {
    match close {
        Some(error) => ConvertError::Demux(error),
        None => missing,
    }
}

/// The conversion of a stream that hands out `packets` and then closes
/// with `close`.
///
/// The first packet is the identification header, the second the comment
/// header, and all that follow are audio, kept as they are and in their
/// order. The stream must hold both headers, both must decode, and the
/// stream must end without a fault. Of two faulty headers the comment
/// header is the one reported.
pub open spec fn conversion_of(packets: Seq<Seq<u8>>, close: Option<DemuxError>) -> Result<
    ConversionView,
    ConvertError,
> {
    if packets.len() == 0 {
        Err(cut_short(close, ConvertError::MissingHeader))
    } else if packets.len() == 1 {
        Err(cut_short(close, ConvertError::MissingComments))
    } else {
        match (parse_tags(packets[1]), parse_head(packets[0]), close) {
            (Err(error), _, _) => Err(ConvertError::Format(error)),
            (Ok(_), Err(error), _) => Err(ConvertError::Format(error)),
            (Ok(_), Ok(_), Some(error)) => Err(ConvertError::Demux(error)),
            (Ok(_), Ok(head), None) => Ok(
                ConversionView {
                    description: opus_description(head),
                    priming_frames: head.preskip as i32,
                    packets: packets.skip(2),
                },
            ),
        }
    }
}

/// The conversion of the Ogg stream `input`.
pub open spec fn stream_conversion(input: Seq<u8>) -> Result<ConversionView, ConvertError> {
    conversion_of(demuxed(input).0, demuxed(input).1)
}

/// A stream of two headers and any number of audio packets that ends
/// without a fault converts to the description and priming frame count of
/// its identification header and to exactly its audio packets, each as it
/// is and all in their order.
pub proof fn lemma_conversion_keeps_audio(
    header: Seq<u8>,
    comments: Seq<u8>,
    audio: Seq<Seq<u8>>,
)
    requires
        parse_head(header) is Ok,
        parse_tags(comments) is Ok,
    ensures
        conversion_of(seq![header, comments] + audio, None) == Ok::<ConversionView, ConvertError>(
            ConversionView {
                description: opus_description(parse_head(header)->Ok_0),
                priming_frames: parse_head(header)->Ok_0.preskip as i32,
                packets: audio,
            },
        ),
{
    assert((seq![header, comments] + audio).skip(2) =~= audio);
}

/// A stream that ends after one packet is missing its comments, whatever
/// that packet holds, and a stream without any packet is missing its
/// header.
pub proof fn lemma_headers_are_required(packet: Seq<u8>)
    ensures
        conversion_of(seq![packet], None) == Err::<ConversionView, ConvertError>(
            ConvertError::MissingComments,
        ),
        conversion_of(Seq::empty(), None) == Err::<ConversionView, ConvertError>(
            ConvertError::MissingHeader,
        ),
{
}

/// Streams that agree byte for byte convert alike: the conversion depends
/// on nothing but the bytes of the stream.
pub proof fn lemma_same_bytes_same_conversion(first: Seq<u8>, second: Seq<u8>)
    requires
        first.len() == second.len(),
        forall|i: int| 0 <= i < first.len() ==> first[i] == second[i],
    ensures
        stream_conversion(first) == stream_conversion(second),
{
    assert(first =~= second);
}

/// Converts the Ogg stream `input`.
///
/// The result is `Ok` exactly when the stream holds at least two packets,
/// the first decodes as an identification header and the second as a
/// comment header, and the stream ends without a fault. It then carries
/// the description and priming frame count derived from the
/// identification header and every packet after the second, unchanged and
/// in order. Nothing is kept of a stream that fails.
pub fn convert(input: Vec<u8>) -> (converted: Result<Conversion, ConvertError>)
    ensures
        conversion_view(converted) == stream_conversion(input@),
{
    convert_stream(PacketSource::open(input))
}

/// Converts the stream that `source` has pending.
///
/// Every packet is taken from the source in turn and answered by
/// `Phase::advance`, until the stream closes or the conversion fails.
pub fn convert_stream(source: PacketSource) -> (converted: Result<Conversion, ConvertError>)
    ensures
        conversion_view(converted) == conversion_of(pending(source), closing(source)),
{
    let ghost all = pending(source);
    let ghost close = closing(source);
    let ghost mut taken: int = 0;
    let mut reader = source;
    let mut phase = Phase::AwaitHeader;
    let mut opened: Option<(AudioDescription, i32)> = None;
    let mut packets: Vec<Vec<u8>> = Vec::new();
    loop
        invariant
            all == pending(source),
            close == closing(source),
            0 <= taken <= all.len(),
            pending(reader) == all.skip(taken),
            closing(reader) == close,
            taken == 0 ==> phase == Phase::AwaitHeader,
            taken == 1 ==> phase == Phase::AwaitComments(parse_head(all[0])),
            taken >= 2 ==> phase == Phase::Streaming && parse_tags(all[1]) is Ok && parse_head(
                all[0],
            ) is Ok && opened == Some(
                (
                    opus_description(parse_head(all[0])->Ok_0),
                    parse_head(all[0])->Ok_0.preskip as i32,
                ),
            ),
            taken < 2 ==> packets@.len() == 0,
            taken >= 2 ==> packets@.map_values(|payload: Vec<u8>| payload@) == all.subrange(
                2,
                taken,
            ),
        decreases all.len() - taken,
    {
        let event = reader.next_event();
        let (next, answered) = phase.advance(event);
        phase = next;
        match answered {
            Err(error) => {
                return Err(error);
            },
            Ok(Directive::Fetch) => {},
            Ok(Directive::Open { description, priming_frames }) => {
                opened = Some((description, priming_frames));
            },
            Ok(Directive::Append(payload)) => {
                packets.push(payload);
            },
            Ok(Directive::Finalize) => {
                let (description, priming_frames) = opened.unwrap();
                return Ok(Conversion { description, priming_frames, packets });
            },
        }
        proof {
            taken = taken + 1;
        }
    }
}

} // verus!
