use ogg::{PacketWriteEndInfo, PacketWriter};
use ogg2caf::{
    convert, convert_stream, AudioDescription, ByteCursor, Conversion, ConvertError, DemuxError,
    Directive, FormatError, OpusHead, PacketEvent, PacketSource, Phase,
};

const HEAD: [u8; 19] = [
    0x4f, 0x70, 0x75, 0x73, 0x48, 0x65, 0x61, 0x64, 0x01, 0x02, 0x38, 0x01, 0x80, 0xbb, 0x00,
    0x00, 0x00, 0x00, 0x00,
];

const TAGS: [u8; 20] = [
    0x4f, 0x70, 0x75, 0x73, 0x54, 0x61, 0x67, 0x73, 0x04, 0x00, 0x00, 0x00, 0x74, 0x65, 0x73,
    0x74, 0x00, 0x00, 0x00, 0x00,
];

fn head_with(channels: u8, preskip: u16, rate: u32) -> Vec<u8> {
    let mut bytes = HEAD.to_vec();
    bytes[9] = channels;
    bytes[10..12].copy_from_slice(&preskip.to_le_bytes());
    bytes[12..16].copy_from_slice(&rate.to_le_bytes());
    bytes
}

fn ogg_stream(packets: &[Vec<u8>]) -> Vec<u8> {
    let mut writer = PacketWriter::new(Vec::new());
    for (index, packet) in packets.iter().enumerate() {
        let end = if index + 1 == packets.len() {
            PacketWriteEndInfo::EndStream
        } else if index < 2 {
            PacketWriteEndInfo::EndPage
        } else {
            PacketWriteEndInfo::NormalPacket
        };
        writer
            .write_packet(packet.clone(), 0x0bad_cafe, end, 960 * index as u64)
            .unwrap();
    }
    writer.into_inner()
}

fn audio_packets(count: usize) -> Vec<Vec<u8>> {
    (0..count)
        .map(|index| {
            (0..(index * 37) % 301 + 1)
                .map(|offset| (index * 31 + offset * 7) as u8)
                .collect()
        })
        .collect()
}

fn opus_description(sample_rate: u32, channels: u32) -> AudioDescription {
    AudioDescription {
        sample_rate,
        format_id: u32::from_be_bytes(*b"opus"),
        format_flags: 0,
        bytes_per_packet: 0,
        frames_per_packet: 960,
        channels_per_frame: channels,
        bits_per_channel: 0,
    }
}

#[test]
fn description_for_opus_has_the_fixed_fields() {
    let head = OpusHead::read(&mut ByteCursor::new(&HEAD)).unwrap();
    let description = AudioDescription::for_opus(&head);
    assert_eq!(description.sample_rate, 48000);
    assert_eq!(description.format_id, 0x6f70_7573);
    assert_eq!(description.format_id.to_be_bytes(), *b"opus");
    assert_eq!(description.format_flags, 0);
    assert_eq!(description.bytes_per_packet, 0);
    assert_eq!(description.frames_per_packet, 960);
    assert_eq!(description.channels_per_frame, 2);
    assert_eq!(description.bits_per_channel, 0);
}

#[test]
fn description_substitutes_the_default_sample_rate() {
    let head = OpusHead::read(&mut ByteCursor::new(&head_with(1, 0, 0))).unwrap();
    assert_eq!(AudioDescription::for_opus(&head), opus_description(48000, 1));
    let head = OpusHead::read(&mut ByteCursor::new(&head_with(255, 0, 44100))).unwrap();
    assert_eq!(AudioDescription::for_opus(&head), opus_description(44100, 255));
}

#[test]
fn advance_walks_a_whole_stream() {
    let (phase, answer) = Phase::AwaitHeader.advance(PacketEvent::Packet(head_with(2, 312, 0)));
    assert_eq!(answer, Ok(Directive::Fetch));
    let head = OpusHead::read(&mut ByteCursor::new(&head_with(2, 312, 0))).unwrap();
    assert_eq!(phase, Phase::AwaitComments(Ok(head)));

    let (phase, answer) = phase.advance(PacketEvent::Packet(TAGS.to_vec()));
    assert_eq!(
        answer,
        Ok(Directive::Open { description: opus_description(48000, 2), priming_frames: 312 })
    );
    assert_eq!(phase, Phase::Streaming);

    let (phase, answer) = phase.advance(PacketEvent::Packet(vec![1, 2, 3]));
    assert_eq!(answer, Ok(Directive::Append(vec![1, 2, 3])));
    assert_eq!(phase, Phase::Streaming);

    let (phase, answer) = phase.advance(PacketEvent::Packet(vec![]));
    assert_eq!(answer, Ok(Directive::Append(vec![])));
    assert_eq!(phase, Phase::Streaming);

    let (phase, answer) = phase.advance(PacketEvent::EndOfStream);
    assert_eq!(answer, Ok(Directive::Finalize));
    assert_eq!(phase, Phase::Closed);
}

#[test]
fn advance_reports_the_missing_header() {
    assert_eq!(
        Phase::AwaitHeader.advance(PacketEvent::EndOfStream),
        (Phase::Closed, Err(ConvertError::MissingHeader))
    );
}

#[test]
fn advance_reports_the_missing_comments() {
    let head = OpusHead::read(&mut ByteCursor::new(&HEAD));
    assert_eq!(
        Phase::AwaitComments(head).advance(PacketEvent::EndOfStream),
        (Phase::Closed, Err(ConvertError::MissingComments))
    );
    assert_eq!(
        Phase::AwaitComments(Err(FormatError::BadMagic)).advance(PacketEvent::EndOfStream),
        (Phase::Closed, Err(ConvertError::MissingComments))
    );
}

#[test]
fn advance_reports_a_bad_header_once_the_comments_are_there() {
    for (packet, fault) in [
        (b"OpusHeaX\x01\x02".to_vec(), FormatError::BadMagic),
        (b"OpusHead\x02\x02".to_vec(), FormatError::UnsupportedVersion),
        (b"OpusHead\x01\x02".to_vec(), FormatError::TruncatedInput),
        (Vec::new(), FormatError::TruncatedInput),
    ] {
        let (phase, answer) = Phase::AwaitHeader.advance(PacketEvent::Packet(packet));
        assert_eq!(answer, Ok(Directive::Fetch));
        assert_eq!(phase, Phase::AwaitComments(Err(fault)));
        assert_eq!(
            phase.advance(PacketEvent::Packet(TAGS.to_vec())),
            (Phase::Closed, Err(ConvertError::Format(fault)))
        );
    }
}

#[test]
fn advance_refuses_a_malformed_comment_packet() {
    let head = OpusHead::read(&mut ByteCursor::new(&HEAD));
    let mut bad_text = b"OpusTags".to_vec();
    bad_text.extend_from_slice(&[2, 0, 0, 0, 0xc3, 0x28, 0, 0, 0, 0]);
    for (comments, fault) in [
        (Vec::new(), FormatError::TruncatedInput),
        (b"not tags".to_vec(), FormatError::BadMagic),
        (HEAD.to_vec(), FormatError::BadMagic),
        (TAGS[..TAGS.len() - 1].to_vec(), FormatError::TruncatedInput),
        (bad_text, FormatError::InvalidEncoding),
    ] {
        assert_eq!(
            Phase::AwaitComments(head).advance(PacketEvent::Packet(comments)),
            (Phase::Closed, Err(ConvertError::Format(fault)))
        );
    }
}

#[test]
fn advance_reports_the_comment_header_first_of_two_bad_headers() {
    assert_eq!(
        Phase::AwaitComments(Err(FormatError::UnsupportedVersion))
            .advance(PacketEvent::Packet(b"OpusTags\x01".to_vec())),
        (Phase::Closed, Err(ConvertError::Format(FormatError::TruncatedInput)))
    );
}

#[test]
fn advance_accepts_padding_behind_the_comments() {
    let head = OpusHead::read(&mut ByteCursor::new(&HEAD));
    let mut comments = TAGS.to_vec();
    comments.extend_from_slice(&[0; 16]);
    let (phase, answer) = Phase::AwaitComments(head).advance(PacketEvent::Packet(comments));
    assert_eq!(phase, Phase::Streaming);
    assert_eq!(
        answer,
        Ok(Directive::Open { description: opus_description(48000, 2), priming_frames: 312 })
    );
}

#[test]
fn advance_passes_a_fault_on_in_every_open_phase() {
    let head = OpusHead::read(&mut ByteCursor::new(&HEAD));
    let fault = DemuxError::HashMismatch(1, 2);
    for phase in [
        Phase::AwaitHeader,
        Phase::AwaitComments(head),
        Phase::AwaitComments(Err(FormatError::BadMagic)),
        Phase::Streaming,
    ] {
        assert_eq!(
            phase.advance(PacketEvent::Fault(fault)),
            (Phase::Closed, Err(ConvertError::Demux(fault)))
        );
    }
}

#[test]
fn advance_stays_closed() {
    for event in [
        PacketEvent::Packet(HEAD.to_vec()),
        PacketEvent::EndOfStream,
        PacketEvent::Fault(DemuxError::Io),
    ] {
        assert_eq!(
            Phase::Closed.advance(event),
            (Phase::Closed, Err(ConvertError::Closed))
        );
    }
}

#[test]
fn convert_keeps_every_audio_packet_in_order() {
    for count in [0usize, 1, 2, 7, 300] {
        let audio = audio_packets(count);
        let mut packets = vec![head_with(2, 312, 48000), TAGS.to_vec()];
        packets.extend(audio.iter().cloned());
        let converted = convert(ogg_stream(&packets)).unwrap();
        assert_eq!(
            converted,
            Conversion {
                description: opus_description(48000, 2),
                priming_frames: 312,
                packets: audio,
            }
        );
    }
}

#[test]
fn convert_keeps_packets_that_span_pages() {
    let audio = vec![vec![0x5a; 70_000], vec![], vec![0xa5; 255], vec![1; 510]];
    let mut packets = vec![head_with(1, 0, 16000), TAGS.to_vec()];
    packets.extend(audio.iter().cloned());
    let converted = convert(ogg_stream(&packets)).unwrap();
    assert_eq!(converted.description, opus_description(16000, 1));
    assert_eq!(converted.priming_frames, 0);
    assert_eq!(converted.packets, audio);
}

#[test]
fn convert_uses_the_default_rate_for_an_unspecified_one() {
    let stream = ogg_stream(&[head_with(6, 3840, 0), TAGS.to_vec(), vec![9, 9]]);
    let converted = convert(stream).unwrap();
    assert_eq!(converted.description.sample_rate, 48000);
    assert_eq!(converted.description.channels_per_frame, 6);
    assert_eq!(converted.priming_frames, 3840);
}

#[test]
fn convert_skips_the_mapping_table_of_the_header() {
    let mut head = head_with(3, 100, 48000);
    head[18] = 1;
    head.extend_from_slice(&[2, 1, 0, 1, 2]);
    let converted = convert(ogg_stream(&[head, TAGS.to_vec(), vec![7]])).unwrap();
    assert_eq!(converted.description.channels_per_frame, 3);
    assert_eq!(converted.packets, vec![vec![7u8]]);
}

#[test]
fn convert_fails_without_the_comment_packet() {
    let stream = ogg_stream(&[HEAD.to_vec()]);
    assert_eq!(convert(stream), Err(ConvertError::MissingComments));
    let stream = ogg_stream(&[b"anything".to_vec()]);
    assert_eq!(convert(stream), Err(ConvertError::MissingComments));
    let stream = ogg_stream(&[Vec::new()]);
    assert_eq!(convert(stream), Err(ConvertError::MissingComments));
}

#[test]
fn convert_fails_on_a_bad_header() {
    let stream = ogg_stream(&[TAGS.to_vec(), TAGS.to_vec(), vec![1]]);
    assert_eq!(convert(stream), Err(ConvertError::Format(FormatError::BadMagic)));
    let mut head = HEAD.to_vec();
    head[8] = 0;
    let stream = ogg_stream(&[head, TAGS.to_vec()]);
    assert_eq!(
        convert(stream),
        Err(ConvertError::Format(FormatError::UnsupportedVersion))
    );
    let stream = ogg_stream(&[HEAD[..18].to_vec(), TAGS.to_vec()]);
    assert_eq!(
        convert(stream),
        Err(ConvertError::Format(FormatError::TruncatedInput))
    );
}

#[test]
fn convert_fails_on_a_bad_comment_header() {
    let stream = ogg_stream(&[HEAD.to_vec(), HEAD.to_vec(), vec![1]]);
    assert_eq!(convert(stream), Err(ConvertError::Format(FormatError::BadMagic)));
    let stream = ogg_stream(&[HEAD.to_vec(), TAGS[..10].to_vec(), vec![1]]);
    assert_eq!(
        convert(stream),
        Err(ConvertError::Format(FormatError::TruncatedInput))
    );
    let mut comments = b"OpusTags".to_vec();
    comments.extend_from_slice(&[1, 0, 0, 0, 0xff, 0, 0, 0, 0]);
    let stream = ogg_stream(&[HEAD.to_vec(), comments, vec![1]]);
    assert_eq!(
        convert(stream),
        Err(ConvertError::Format(FormatError::InvalidEncoding))
    );
}

#[test]
fn convert_fails_on_what_is_no_ogg_stream() {
    assert_eq!(
        convert(Vec::new()),
        Err(ConvertError::Demux(DemuxError::NoCapturePattern))
    );
    assert_eq!(
        convert(b"RIFF....WAVEfmt ".to_vec()),
        Err(ConvertError::Demux(DemuxError::NoCapturePattern))
    );
}

#[test]
fn convert_fails_on_a_stream_cut_inside_a_page() {
    let mut packets = vec![HEAD.to_vec(), TAGS.to_vec()];
    packets.extend(audio_packets(5));
    let stream = ogg_stream(&packets);
    let cut = stream[..stream.len() - 3].to_vec();
    assert_eq!(convert(cut), Err(ConvertError::Demux(DemuxError::Io)));
}

#[test]
fn convert_fails_on_a_corrupted_audio_page() {
    let mut packets = vec![HEAD.to_vec(), TAGS.to_vec()];
    packets.extend(audio_packets(5));
    let mut stream = ogg_stream(&packets);
    let last = stream.len() - 1;
    stream[last] ^= 0x01;
    match convert(stream) {
        Err(ConvertError::Demux(DemuxError::HashMismatch(stored, computed))) => {
            assert_ne!(stored, computed)
        }
        other => panic!("unexpected result {:?}", other),
    }
}

#[test]
fn convert_twice_gives_the_same_conversion() {
    let mut packets = vec![head_with(2, 312, 0), TAGS.to_vec()];
    packets.extend(audio_packets(20));
    let stream = ogg_stream(&packets);
    let first = convert(stream.clone());
    let second = convert(stream);
    assert!(first.is_ok());
    assert_eq!(first, second);
}

#[test]
fn convert_stream_goes_on_from_where_the_source_stands() {
    let mut packets = vec![vec![0xee], HEAD.to_vec(), TAGS.to_vec()];
    packets.extend(audio_packets(3));
    let mut source = PacketSource::open(ogg_stream(&packets));
    assert_eq!(source.next_event(), PacketEvent::Packet(vec![0xee]));
    let converted = convert_stream(source).unwrap();
    assert_eq!(converted.packets, audio_packets(3));
    assert_eq!(converted.priming_frames, 312);
}
