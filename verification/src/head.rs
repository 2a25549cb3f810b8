//! The Opus identification header, the first packet of a stream.

use crate::cursor::{
    i16_le_bytes, le_i16, le_u16, le_u32, lemma_i16_le_round_trip, lemma_u16_le_round_trip,
    lemma_u32_le_round_trip, u16_le_bytes, u32_le_bytes, ByteCursor,
};
use crate::error::FormatError;
use vstd::prelude::*;

verus! {

/// The fields of an Opus identification header.
///
/// The channel mapping table that follows a nonzero mapping family is
/// passed over when the header is read and is not kept.
#[derive(Clone, Copy, Debug, PartialEq, Eq, Structural)]
pub struct OpusHead {
    /// Number of output channels.
    pub channel_count: u8,
    /// Number of decoded samples to discard at the start of the stream.
    pub preskip: u16,
    /// Sample rate of the audio before it was encoded, in Hz; zero when
    /// unspecified.
    pub input_sample_rate: u32,
    /// Gain to apply when decoding, in Q7.8 fixed point.
    pub output_gain: i16,
    /// Zero when no channel mapping table follows the fixed fields.
    pub channel_mapping_family: u8,
}

/// The signature that opens the header: the ASCII text `OpusHead`.
pub open spec fn head_magic() -> Seq<u8> {
    seq![0x4fu8, 0x70u8, 0x75u8, 0x73u8, 0x48u8, 0x65u8, 0x61u8, 0x64u8]
}

/// Length of the signature.
pub const MAGIC_LEN: usize = 8;

/// Length of the header up to and including the mapping family.
pub const FIXED_HEAD_LEN: usize = 19;

/// Number of bytes that follow the fixed fields of a header whose channel
/// count and mapping family are given: with a nonzero family, a stream
/// count, a coupled count and one table entry for each channel.
pub open spec fn mapping_len(channel_count: u8, channel_mapping_family: u8) -> nat {
    if channel_mapping_family == 0 {
        0
    } else {
        (2 + channel_count) as nat
    }
}

/// The header that `bytes` starts with, or the reason why there is none.
///
/// The layout is fixed: signature, version, channel count, pre-skip,
/// input sample rate, output gain and mapping family, all numbers least
/// significant byte first. The checks come in the order of the fields, so
/// that a wrong signature is reported even when the data is also too
/// short for the rest.
pub open spec fn parse_head(bytes: Seq<u8>) -> Result<OpusHead, FormatError> {
    if bytes.len() < MAGIC_LEN {
        Err(FormatError::TruncatedInput)
    } else if bytes.take(MAGIC_LEN as int) != head_magic() {
        Err(FormatError::BadMagic)
    } else if bytes.len() < MAGIC_LEN + 1 {
        Err(FormatError::TruncatedInput)
    } else if bytes[8] != 1 {
        Err(FormatError::UnsupportedVersion)
    } else if bytes.len() < FIXED_HEAD_LEN {
        Err(FormatError::TruncatedInput)
    } else if bytes.len() < FIXED_HEAD_LEN + mapping_len(bytes[9], bytes[18]) {
        Err(FormatError::TruncatedInput)
    } else {
        Ok(
            OpusHead {
                channel_count: bytes[9],
                preskip: le_u16(bytes.skip(10)) as u16,
                input_sample_rate: le_u32(bytes.skip(12)) as u32,
                output_gain: le_i16(bytes.skip(16)) as i16,
                channel_mapping_family: bytes[18],
            },
        )
    }
}

/// Number of bytes that reading a header takes off the front of `bytes`.
///
/// A header that parses takes its fixed fields and its mapping table. A
/// wrong signature stops the read after the signature, an unsupported
/// version after the version byte. Truncated data is used up.
pub open spec fn head_consumed(bytes: Seq<u8>) -> nat {
    match parse_head(bytes) {
        Ok(head) => FIXED_HEAD_LEN as nat + mapping_len(
            head.channel_count,
            head.channel_mapping_family,
        ),
        Err(FormatError::BadMagic) => MAGIC_LEN as nat,
        Err(FormatError::UnsupportedVersion) => (MAGIC_LEN + 1) as nat,
        Err(_) => bytes.len(),
    }
}

/// The fixed fields of `head` as they stand in a packet: nineteen bytes.
pub open spec fn head_bytes(head: OpusHead) -> Seq<u8> {
    head_magic() + seq![1u8, head.channel_count] + u16_le_bytes(head.preskip) + u32_le_bytes(
        head.input_sample_rate,
    ) + i16_le_bytes(head.output_gain) + seq![head.channel_mapping_family]
}

/// A header is read back from its bytes with every field as it was
/// written, and reading stops right behind it.
///
/// With a mapping family of zero the header is its nineteen fixed bytes.
/// With any other family a table of `2 + channel_count` bytes follows, and
/// is passed over whatever it holds. In both cases the bytes in `rest`,
/// and only they, are left unread.
pub proof fn lemma_head_round_trip(head: OpusHead, table: Seq<u8>, rest: Seq<u8>)
    requires
        table.len() == mapping_len(head.channel_count, head.channel_mapping_family),
    ensures
        parse_head(head_bytes(head) + table + rest) == Ok::<OpusHead, FormatError>(head),
        head_consumed(head_bytes(head) + table + rest) == FIXED_HEAD_LEN + table.len(),
        (head_bytes(head) + table + rest).skip(
            head_consumed(head_bytes(head) + table + rest) as int,
        ) == rest,
{
    let bytes = head_bytes(head) + table + rest;
    let after_gain = seq![head.channel_mapping_family] + table + rest;
    let after_rate = i16_le_bytes(head.output_gain) + after_gain;
    let after_preskip = u32_le_bytes(head.input_sample_rate) + after_rate;
    assert(bytes.take(MAGIC_LEN as int) =~= head_magic());
    assert(bytes.skip(10) =~= u16_le_bytes(head.preskip) + after_preskip);
    assert(bytes.skip(12) =~= u32_le_bytes(head.input_sample_rate) + after_rate);
    assert(bytes.skip(16) =~= i16_le_bytes(head.output_gain) + after_gain);
    lemma_u16_le_round_trip(head.preskip, after_preskip);
    lemma_u32_le_round_trip(head.input_sample_rate, after_rate);
    lemma_i16_le_round_trip(head.output_gain, after_gain);
    assert(bytes.skip(FIXED_HEAD_LEN + table.len()) =~= rest);
}

/// Eight or more bytes that do not start with the signature are refused as
/// `BadMagic`, and reading stops right behind those eight bytes.
pub proof fn lemma_wrong_signature(bytes: Seq<u8>)
    requires
        bytes.len() >= MAGIC_LEN,
        bytes.take(MAGIC_LEN as int) != head_magic(),
    ensures
        parse_head(bytes) == Err::<OpusHead, FormatError>(FormatError::BadMagic),
        head_consumed(bytes) == MAGIC_LEN,
{
}

/// Whether `bytes` are the header signature.
fn is_head_magic(bytes: &[u8]) -> (same: bool)
    requires
        bytes@.len() == MAGIC_LEN,
    ensures
        same == (bytes@ == head_magic()),
{
    let same = bytes[0] == 0x4f && bytes[1] == 0x70 && bytes[2] == 0x75 && bytes[3] == 0x73
        && bytes[4] == 0x48 && bytes[5] == 0x65 && bytes[6] == 0x61 && bytes[7] == 0x64;
    proof {
        if same {
            assert(bytes@ =~= head_magic());
        }
    }
    same
}

impl OpusHead {
    /// Reads an identification header from `rdr`.
    ///
    /// The result is the header that the unread bytes start with, or the
    /// first fault met in field order. The cursor moves past what was read:
    /// past the whole header and its mapping table on success, past the
    /// signature after `BadMagic`, past the version after
    /// `UnsupportedVersion`, and to the end of the data after
    /// `TruncatedInput`.
    pub fn read(rdr: &mut ByteCursor<'_>) -> (parsed: Result<OpusHead, FormatError>)
        ensures
            parsed == parse_head(old(rdr)@),
            final(rdr)@ == old(rdr)@.skip(head_consumed(old(rdr)@) as int),
    {
        let magic = match rdr.read_exact(MAGIC_LEN) {
            Ok(magic) => magic,
            Err(error) => {
                return Err(error);
            },
        };
        if !is_head_magic(magic) {
            return Err(FormatError::BadMagic);
        }
        let version = match rdr.read_u8() {
            Ok(version) => version,
            Err(error) => {
                return Err(error);
            },
        };
        if version != 1 {
            return Err(FormatError::UnsupportedVersion);
        }
        let channel_count = match rdr.read_u8() {
            Ok(value) => value,
            Err(error) => {
                return Err(error);
            },
        };
        let preskip = match rdr.read_u16_le() {
            Ok(value) => value,
            Err(error) => {
                return Err(error);
            },
        };
        let input_sample_rate = match rdr.read_u32_le() {
            Ok(value) => value,
            Err(error) => {
                return Err(error);
            },
        };
        let output_gain = match rdr.read_i16_le() {
            Ok(value) => value,
            Err(error) => {
                return Err(error);
            },
        };
        let channel_mapping_family = match rdr.read_u8() {
            Ok(value) => value,
            Err(error) => {
                return Err(error);
            },
        };
        if channel_mapping_family != 0 {
            let table_len: usize = 2 + channel_count as usize;
            match rdr.skip(table_len) {
                Ok(_) => {},
                Err(error) => {
                    return Err(error);
                },
            }
        }
        Ok(
            OpusHead {
                channel_count,
                preskip,
                input_sample_rate,
                output_gain,
                channel_mapping_family,
            },
        )
    }
}

} // verus!
