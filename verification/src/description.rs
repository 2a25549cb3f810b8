//! The audio description that the container carries for an Opus stream.

use crate::head::OpusHead;
use vstd::prelude::*;

verus! {

/// The format code of Opus: the ASCII letters `opus` as one big-endian
/// 32-bit number.
pub const OPUS_FORMAT_ID: u32 = 0x6f70_7573;

/// The sample rate that stands in for an unspecified one, in Hz.
pub const DEFAULT_SAMPLE_RATE: u32 = 48000;

/// Frames in each packet: one 20 ms Opus frame at 48 kHz.
///
/// This is an assumption, not a measurement. Opus packets carry their own
/// frame size, which is not decoded here, so streams with other frame
/// sizes get a wrong duration.
pub const FRAMES_PER_PACKET: u32 = 960;

/// The number that four bytes spell, most significant byte first.
pub open spec fn four_char_code(first: u8, second: u8, third: u8, fourth: u8) -> int {
    0x100_0000 * (first as int) + 0x1_0000 * (second as int) + 0x100 * (third as int) + (
    fourth as int)
}

/// The format code is the four-character code of the letters `o`, `p`,
/// `u`, `s`.
pub proof fn lemma_format_id_spells_opus()
    ensures
        OPUS_FORMAT_ID as int == four_char_code(0x6f, 0x70, 0x75, 0x73),
        0x6f == 'o' as u8,
        0x70 == 'p' as u8,
        0x75 == 'u' as u8,
        0x73 == 's' as u8,
{
}

/// What a container records about the encoded audio.
///
/// The sample rate is a whole number of Hz. The three zero fields say that
/// packets are compressed and vary in size.
#[derive(Clone, Copy, Debug, PartialEq, Eq, Structural)]
pub struct AudioDescription {
    /// Samples per second.
    pub sample_rate: u32,
    /// Four-character code of the encoding.
    pub format_id: u32,
    /// Flags specific to the encoding.
    pub format_flags: u32,
    /// Size of a packet in bytes; zero when packets vary in size.
    pub bytes_per_packet: u32,
    /// Frames in a packet.
    pub frames_per_packet: u32,
    /// Channels in a frame.
    pub channels_per_frame: u32,
    /// Bits in one sample of one channel; zero for compressed audio.
    pub bits_per_channel: u32,
}

/// The sample rate to record for a header: the one it names, or the
/// default when it names none.
pub open spec fn effective_sample_rate(head: OpusHead) -> u32 {
    if head.input_sample_rate == 0 {
        DEFAULT_SAMPLE_RATE
    } else {
        head.input_sample_rate
    }
}

/// The description of the stream that `head` opens.
pub open spec fn opus_description(head: OpusHead) -> AudioDescription {
    AudioDescription {
        sample_rate: effective_sample_rate(head),
        format_id: OPUS_FORMAT_ID,
        format_flags: 0,
        bytes_per_packet: 0,
        frames_per_packet: FRAMES_PER_PACKET,
        channels_per_frame: head.channel_count as u32,
        bits_per_channel: 0,
    }
}

impl OpusHead {
    /// The sample rate to record for this stream: the input sample rate,
    /// or 48000 Hz when the header leaves it at zero.
    pub fn effective_sample_rate(&self) -> (rate: u32)
        ensures
            rate == effective_sample_rate(*self),
            self.input_sample_rate == 0 ==> rate == 48000,
            self.input_sample_rate != 0 ==> rate == self.input_sample_rate,
    {
        if self.input_sample_rate == 0 {
            DEFAULT_SAMPLE_RATE
        } else {
            self.input_sample_rate
        }
    }

    /// The number of priming frames to record: the header's pre-skip.
    pub fn priming_frames(&self) -> (frames: i32)
        ensures
            frames == self.preskip,
    {
        self.preskip as i32
    }
}

impl AudioDescription {
    /// The description of the stream that `head` opens.
    pub fn for_opus(head: &OpusHead) -> (description: AudioDescription)
        ensures
            description == opus_description(*head),
    {
        AudioDescription {
            sample_rate: head.effective_sample_rate(),
            format_id: OPUS_FORMAT_ID,
            format_flags: 0,
            bytes_per_packet: 0,
            frames_per_packet: FRAMES_PER_PACKET,
            channels_per_frame: head.channel_count as u32,
            bits_per_channel: 0,
        }
    }
}

} // verus!
