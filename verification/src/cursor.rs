//! A forward-only reader over the bytes of one packet.

use crate::error::FormatError;
use byteorder::{ByteOrder, LittleEndian};
use vstd::prelude::*;
use vstd::slice::slice_subrange;

verus! {

/// The unsigned number that the first two bytes of `bytes` spell, least
/// significant byte first.
pub open spec fn le_u16(bytes: Seq<u8>) -> int
    recommends
        bytes.len() >= 2,
{
    bytes[0] as int + 0x100 * (bytes[1] as int)
}

/// The signed number that the first two bytes of `bytes` spell in two's
/// complement, least significant byte first.
pub open spec fn le_i16(bytes: Seq<u8>) -> int
    recommends
        bytes.len() >= 2,
{
    if le_u16(bytes) < 0x8000 {
        le_u16(bytes)
    } else {
        le_u16(bytes) - 0x1_0000
    }
}

/// The unsigned number that the first four bytes of `bytes` spell, least
/// significant byte first.
pub open spec fn le_u32(bytes: Seq<u8>) -> int
    recommends
        bytes.len() >= 4,
{
    bytes[0] as int + 0x100 * (bytes[1] as int) + 0x1_0000 * (bytes[2] as int) + 0x100_0000 * (
    bytes[3] as int)
}

/// The two bytes that spell `value`, least significant byte first.
pub open spec fn u16_le_bytes(value: u16) -> Seq<u8> {
    seq![(value % 0x100) as u8, (value / 0x100) as u8]
}

/// The two bytes that spell `value` in two's complement, least significant
/// byte first.
pub open spec fn i16_le_bytes(value: i16) -> Seq<u8> {
    if value < 0 {
        u16_le_bytes((value + 0x1_0000) as u16)
    } else {
        u16_le_bytes(value as u16)
    }
}

/// The four bytes that spell `value`, least significant byte first.
pub open spec fn u32_le_bytes(value: u32) -> Seq<u8> {
    seq![
        (value % 0x100) as u8,
        (value / 0x100 % 0x100) as u8,
        (value / 0x1_0000 % 0x100) as u8,
        (value / 0x100_0000) as u8,
    ]
}

/// A 16-bit number is read back from its two bytes, whatever follows them.
pub proof fn lemma_u16_le_round_trip(value: u16, rest: Seq<u8>)
    ensures
        le_u16(u16_le_bytes(value) + rest) == value,
{
}

/// A signed 16-bit number is read back from its two bytes, whatever
/// follows them.
pub proof fn lemma_i16_le_round_trip(value: i16, rest: Seq<u8>)
    ensures
        le_i16(i16_le_bytes(value) + rest) == value,
{
}

/// A 32-bit number is read back from its four bytes, whatever follows
/// them.
pub proof fn lemma_u32_le_round_trip(value: u32, rest: Seq<u8>)
    ensures
        le_u32(u32_le_bytes(value) + rest) == value,
{
}

/// `byteorder::LittleEndian::read_u16`, which the crate documents as
/// reading an unsigned 16-bit number from the front of `buf` and as
/// panicking when `buf` is shorter than two bytes. Trusted: the result is
/// the little-endian value of the first two bytes.
#[verifier::external_body]
fn decode_u16(buf: &[u8]) -> (value: u16)
    requires
        buf@.len() >= 2,
    ensures
        value as int == le_u16(buf@),
{
    LittleEndian::read_u16(buf)
}

/// `byteorder::LittleEndian::read_i16`, which reads the same two bytes as
/// `read_u16` and reinterprets them as a signed number. Trusted: the
/// result is the two's-complement little-endian value of the first two
/// bytes.
#[verifier::external_body]
fn decode_i16(buf: &[u8]) -> (value: i16)
    requires
        buf@.len() >= 2,
    ensures
        value as int == le_i16(buf@),
{
    LittleEndian::read_i16(buf)
}

/// `byteorder::LittleEndian::read_u32`, which the crate documents as
/// reading an unsigned 32-bit number from the front of `buf` and as
/// panicking when `buf` is shorter than four bytes. Trusted: the result is
/// the little-endian value of the first four bytes.
#[verifier::external_body]
fn decode_u32(buf: &[u8]) -> (value: u32)
    requires
        buf@.len() >= 4,
    ensures
        value as int == le_u32(buf@),
{
    LittleEndian::read_u32(buf)
}

/// A read position inside a borrowed byte slice.
///
/// Its view is the part of the slice that has not been read yet. Every
/// read takes bytes off the front of the view. A read that asks for more
/// than is left fails and leaves nothing unread, so that no later read can
/// pick up in the middle of a field.
pub struct ByteCursor<'a> {
    data: &'a [u8],
    pos: usize,
}

impl<'a> View for ByteCursor<'a> {
    type V = Seq<u8>;

    closed spec fn view(&self) -> Seq<u8> {
        self.data@.skip(self.pos as int)
    }
}

impl<'a> ByteCursor<'a> {
    #[verifier::type_invariant]
    spec fn in_bounds(self) -> bool {
        self.pos <= self.data@.len()
    }

    /// A cursor at the start of `data`.
    pub fn new(data: &'a [u8]) -> (cursor: Self)
        ensures
            cursor@ == data@,
    {
        ByteCursor { data, pos: 0 }
    }

    /// The number of bytes not read yet.
    pub fn remaining(&self) -> (count: usize)
        ensures
            count == self@.len(),
    {
        proof {
            use_type_invariant(&*self);
        }
        self.data.len() - self.pos
    }

    /// Takes the next `count` bytes.
    ///
    /// Fails with `TruncatedInput` exactly when fewer than `count` bytes
    /// are left; the cursor is then exhausted.
    pub fn read_exact(&mut self, count: usize) -> (taken: Result<&'a [u8], FormatError>)
        ensures
            match taken {
                Ok(chunk) => {
                    &&& count <= old(self)@.len()
                    &&& chunk@ == old(self)@.take(count as int)
                    &&& final(self)@ == old(self)@.skip(count as int)
                },
                Err(error) => {
                    &&& error == FormatError::TruncatedInput
                    &&& count > old(self)@.len()
                    &&& final(self)@ == Seq::<u8>::empty()
                },
            },
    {
        proof {
            use_type_invariant(&*self);
        }
        let start = self.pos;
        let length = self.data.len();
        if count > length - start {
            self.pos = length;
            return Err(FormatError::TruncatedInput);
        }
        let end = start + count;
        let chunk = slice_subrange(self.data, start, end);
        self.pos = end;
        Ok(chunk)
    }

    /// Passes over the next `count` bytes without looking at them.
    ///
    /// Fails with `TruncatedInput` exactly when fewer than `count` bytes
    /// are left; the cursor is then exhausted.
    pub fn skip(&mut self, count: usize) -> (skipped: Result<(), FormatError>)
        ensures
            match skipped {
                Ok(_) => {
                    &&& count <= old(self)@.len()
                    &&& final(self)@ == old(self)@.skip(count as int)
                },
                Err(error) => {
                    &&& error == FormatError::TruncatedInput
                    &&& count > old(self)@.len()
                    &&& final(self)@ == Seq::<u8>::empty()
                },
            },
    {
        match self.read_exact(count) {
            Ok(_) => Ok(()),
            Err(error) => Err(error),
        }
    }

    /// Reads one byte.
    pub fn read_u8(&mut self) -> (read: Result<u8, FormatError>)
        ensures
            match read {
                Ok(value) => {
                    &&& old(self)@.len() >= 1
                    &&& value == old(self)@[0]
                    &&& final(self)@ == old(self)@.skip(1)
                },
                Err(error) => {
                    &&& error == FormatError::TruncatedInput
                    &&& old(self)@.len() < 1
                    &&& final(self)@ == Seq::<u8>::empty()
                },
            },
    {
        match self.read_exact(1) {
            Ok(chunk) => Ok(chunk[0]),
            Err(error) => Err(error),
        }
    }

    /// Reads an unsigned 16-bit number stored least significant byte first.
    pub fn read_u16_le(&mut self) -> (read: Result<u16, FormatError>)
        ensures
            match read {
                Ok(value) => {
                    &&& old(self)@.len() >= 2
                    &&& value as int == le_u16(old(self)@)
                    &&& final(self)@ == old(self)@.skip(2)
                },
                Err(error) => {
                    &&& error == FormatError::TruncatedInput
                    &&& old(self)@.len() < 2
                    &&& final(self)@ == Seq::<u8>::empty()
                },
            },
    {
        match self.read_exact(2) {
            Ok(chunk) => Ok(decode_u16(chunk)),
            Err(error) => Err(error),
        }
    }

    /// Reads a signed 16-bit number stored least significant byte first.
    pub fn read_i16_le(&mut self) -> (read: Result<i16, FormatError>)
        ensures
            match read {
                Ok(value) => {
                    &&& old(self)@.len() >= 2
                    &&& value as int == le_i16(old(self)@)
                    &&& final(self)@ == old(self)@.skip(2)
                },
                Err(error) => {
                    &&& error == FormatError::TruncatedInput
                    &&& old(self)@.len() < 2
                    &&& final(self)@ == Seq::<u8>::empty()
                },
            },
    {
        match self.read_exact(2) {
            Ok(chunk) => Ok(decode_i16(chunk)),
            Err(error) => Err(error),
        }
    }

    /// Reads an unsigned 32-bit number stored least significant byte first.
    pub fn read_u32_le(&mut self) -> (read: Result<u32, FormatError>)
        ensures
            match read {
                Ok(value) => {
                    &&& old(self)@.len() >= 4
                    &&& value as int == le_u32(old(self)@)
                    &&& final(self)@ == old(self)@.skip(4)
                },
                Err(error) => {
                    &&& error == FormatError::TruncatedInput
                    &&& old(self)@.len() < 4
                    &&& final(self)@ == Seq::<u8>::empty()
                },
            },
    {
        match self.read_exact(4) {
            Ok(chunk) => Ok(decode_u32(chunk)),
            Err(error) => Err(error),
        }
    }
}

} // verus!
