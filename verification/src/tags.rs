//! The Opus comment header, the second packet of a stream.

use crate::cursor::{le_u32, lemma_u32_le_round_trip, u32_le_bytes, ByteCursor};
use crate::error::FormatError;
use std::string::FromUtf8Error;
use vstd::prelude::*;
use vstd::slice::slice_to_vec;
use vstd::utf8::{
    decode_utf8, encode_utf8, encode_utf8_decode_utf8, encode_utf8_valid_utf8, valid_utf8,
};

verus! {

/// The error of `String::from_utf8`. Nothing is read from it.
#[verifier::external_type_specification]
#[verifier::external_body]
pub struct ExFromUtf8Error(std::string::FromUtf8Error);

/// `String::from_utf8`, which std documents as succeeding exactly when the
/// bytes are valid UTF-8 and as keeping the bytes as the string's content.
/// Trusted: the result is `Ok` exactly on valid UTF-8, and the string then
/// holds the characters that the bytes encode.
pub assume_specification[ String::from_utf8 ](vec: Vec<u8>) -> (decoded: Result<
    String,
    FromUtf8Error,
>)
    ensures
        decoded is Ok <==> valid_utf8(vec@),
        decoded matches Ok(text) ==> text@ == decode_utf8(vec@),
;

/// The vendor text and the user comments of a stream.
#[derive(Debug, PartialEq, Eq)]
pub struct OpusTags {
    /// Name of the software that produced the stream.
    pub vendor_string: String,
    /// The comments, in the order in which the packet lists them.
    pub user_comments: Vec<String>,
}

/// What an `OpusTags` value holds, as sequences of characters.
pub struct OpusTagsView {
    pub vendor_string: Seq<char>,
    pub user_comments: Seq<Seq<char>>,
}

impl View for OpusTags {
    type V = OpusTagsView;

    open spec fn view(&self) -> OpusTagsView {
        OpusTagsView {
            vendor_string: self.vendor_string@,
            user_comments: self.user_comments.deep_view(),
        }
    }
}

/// The signature that opens the comment header: the ASCII text `OpusTags`.
pub open spec fn tags_magic() -> Seq<u8> {
    seq![0x4fu8, 0x70u8, 0x75u8, 0x73u8, 0x54u8, 0x61u8, 0x67u8, 0x73u8]
}

/// Whether `bytes` start with a complete length-prefixed field: a 32-bit
/// little-endian byte count and that many bytes.
pub open spec fn has_string(bytes: Seq<u8>) -> bool {
    bytes.len() >= 4 && bytes.len() >= 4 + le_u32(bytes)
}

/// The content bytes of the length-prefixed field at the front of `bytes`.
pub open spec fn string_body(bytes: Seq<u8>) -> Seq<u8>
    recommends
        has_string(bytes),
{
    bytes.subrange(4, 4 + le_u32(bytes))
}

/// The text of the length-prefixed field at the front of `bytes`, or the
/// reason why there is none.
pub open spec fn parse_string(bytes: Seq<u8>) -> Result<Seq<char>, FormatError> {
    if !has_string(bytes) {
        Err(FormatError::TruncatedInput)
    } else if !valid_utf8(string_body(bytes)) {
        Err(FormatError::InvalidEncoding)
    } else {
        Ok(decode_utf8(string_body(bytes)))
    }
}

/// What reading one length-prefixed field leaves unread: the bytes behind
/// the field, whether or not its content decodes, and nothing when the
/// field is cut short.
pub open spec fn after_string(bytes: Seq<u8>) -> Seq<u8> {
    if has_string(bytes) {
        bytes.skip(4 + le_u32(bytes))
    } else {
        Seq::empty()
    }
}

/// The texts of `count` length-prefixed fields in a row, or the first
/// fault among them.
pub open spec fn parse_strings(bytes: Seq<u8>, count: nat) -> Result<Seq<Seq<char>>, FormatError>
    decreases count,
{
    if count == 0 {
        Ok(Seq::empty())
    } else {
        match parse_string(bytes) {
            Err(error) => Err(error),
            Ok(first) => match parse_strings(after_string(bytes), (count - 1) as nat) {
                Err(error) => Err(error),
                Ok(rest) => Ok(seq![first] + rest),
            },
        }
    }
}

/// What reading `count` length-prefixed fields leaves unread. Reading
/// stops at the first field that fails.
pub open spec fn after_strings(bytes: Seq<u8>, count: nat) -> Seq<u8>
    decreases count,
{
    if count == 0 {
        bytes
    } else if parse_string(bytes) is Err {
        after_string(bytes)
    } else {
        after_strings(after_string(bytes), (count - 1) as nat)
    }
}

/// The user comments that follow the vendor field: a 32-bit little-endian
/// count and that many length-prefixed fields.
pub open spec fn parse_comment_list(bytes: Seq<u8>) -> Result<Seq<Seq<char>>, FormatError> {
    if bytes.len() < 4 {
        Err(FormatError::TruncatedInput)
    } else {
        parse_strings(bytes.skip(4), le_u32(bytes) as nat)
    }
}

/// What reading the comment list leaves unread.
pub open spec fn after_comment_list(bytes: Seq<u8>) -> Seq<u8> {
    if bytes.len() < 4 {
        Seq::empty()
    } else {
        after_strings(bytes.skip(4), le_u32(bytes) as nat)
    }
}

/// The comment header that `bytes` starts with, or the reason why there is
/// none: the signature, the vendor field, then the comment list. The first
/// fault in that order is the one reported.
pub open spec fn parse_tags(bytes: Seq<u8>) -> Result<OpusTagsView, FormatError> {
    if bytes.len() < 8 {
        Err(FormatError::TruncatedInput)
    } else if bytes.take(8) != tags_magic() {
        Err(FormatError::BadMagic)
    } else {
        match parse_string(bytes.skip(8)) {
            Err(error) => Err(error),
            Ok(vendor_string) => match parse_comment_list(after_string(bytes.skip(8))) {
                Err(error) => Err(error),
                Ok(user_comments) => Ok(OpusTagsView { vendor_string, user_comments }),
            },
        }
    }
}

/// What reading a comment header leaves unread. A wrong signature stops
/// the read after the signature, undecodable text after the field that
/// holds it. Truncated data is used up.
pub open spec fn after_tags(bytes: Seq<u8>) -> Seq<u8> {
    if bytes.len() < 8 {
        Seq::empty()
    } else if bytes.take(8) != tags_magic() {
        bytes.skip(8)
    } else if parse_string(bytes.skip(8)) is Err {
        after_string(bytes.skip(8))
    } else {
        after_comment_list(after_string(bytes.skip(8)))
    }
}

/// Whether `text` is short enough for its UTF-8 length to fit the 32-bit
/// length field.
pub open spec fn fits_field(text: Seq<char>) -> bool {
    encode_utf8(text).len() <= u32::MAX
}

/// `text` as a length-prefixed field: the length of its UTF-8 form as a
/// 32-bit little-endian number, then the UTF-8 bytes.
pub open spec fn string_bytes(text: Seq<char>) -> Seq<u8> {
    u32_le_bytes(encode_utf8(text).len() as u32) + encode_utf8(text)
}

/// `texts` as length-prefixed fields in a row.
pub open spec fn strings_bytes(texts: Seq<Seq<char>>) -> Seq<u8>
    decreases texts.len(),
{
    if texts.len() == 0 {
        Seq::empty()
    } else {
        string_bytes(texts[0]) + strings_bytes(texts.drop_first())
    }
}

/// Whether every length and the number of comments fit their 32-bit
/// fields.
pub open spec fn fits_packet(tags: OpusTagsView) -> bool {
    &&& fits_field(tags.vendor_string)
    &&& tags.user_comments.len() <= u32::MAX
    &&& forall|i: int|
        0 <= i < tags.user_comments.len() ==> fits_field(#[trigger] tags.user_comments[i])
}

/// `tags` as a comment header packet.
pub open spec fn tags_bytes(tags: OpusTagsView) -> Seq<u8> {
    tags_magic() + string_bytes(tags.vendor_string) + u32_le_bytes(
        tags.user_comments.len() as u32,
    ) + strings_bytes(tags.user_comments)
}

/// A text is read back from its length-prefixed field as it was written,
/// and reading leaves exactly what follows the field.
pub proof fn lemma_string_round_trip(text: Seq<char>, rest: Seq<u8>)
    requires
        fits_field(text),
    ensures
        parse_string(string_bytes(text) + rest) == Ok::<Seq<char>, FormatError>(text),
        after_string(string_bytes(text) + rest) == rest,
{
    let body = encode_utf8(text);
    let bytes = string_bytes(text) + rest;
    assert(bytes =~= u32_le_bytes(body.len() as u32) + (body + rest));
    lemma_u32_le_round_trip(body.len() as u32, body + rest);
    assert(string_body(bytes) =~= body);
    assert(bytes.skip(4 + body.len() as int) =~= rest);
    encode_utf8_valid_utf8(text);
    encode_utf8_decode_utf8(text);
}

/// Texts are read back from their fields as they were written and in
/// their order, and reading leaves exactly what follows the last field.
pub proof fn lemma_strings_round_trip(texts: Seq<Seq<char>>, rest: Seq<u8>)
    requires
        forall|i: int| 0 <= i < texts.len() ==> fits_field(#[trigger] texts[i]),
    ensures
        parse_strings(strings_bytes(texts) + rest, texts.len()) == Ok::<
            Seq<Seq<char>>,
            FormatError,
        >(texts),
        after_strings(strings_bytes(texts) + rest, texts.len()) == rest,
    decreases texts.len(),
{
    if texts.len() == 0 {
        assert(strings_bytes(texts) + rest =~= rest);
        assert(texts =~= Seq::<Seq<char>>::empty());
    } else {
        let others = texts.drop_first();
        let bytes = strings_bytes(texts) + rest;
        assert(bytes =~= string_bytes(texts[0]) + (strings_bytes(others) + rest));
        lemma_string_round_trip(texts[0], strings_bytes(others) + rest);
        assert forall|i: int| 0 <= i < others.len() implies fits_field(#[trigger] others[i]) by {
            assert(others[i] == texts[i + 1]);
        }
        lemma_strings_round_trip(others, rest);
        assert(seq![texts[0]] + others =~= texts);
    }
}

/// A comment header is read back from its packet with the vendor text and
/// every comment as they were written, and reading leaves exactly what
/// follows the packet.
pub proof fn lemma_tags_round_trip(tags: OpusTagsView, rest: Seq<u8>)
    requires
        fits_packet(tags),
    ensures
        parse_tags(tags_bytes(tags) + rest) == Ok::<OpusTagsView, FormatError>(tags),
        after_tags(tags_bytes(tags) + rest) == rest,
{
    let bytes = tags_bytes(tags) + rest;
    let count = tags.user_comments.len() as u32;
    let list = u32_le_bytes(count) + (strings_bytes(tags.user_comments) + rest);
    assert(bytes.take(8) =~= tags_magic());
    assert(bytes.skip(8) =~= string_bytes(tags.vendor_string) + list);
    lemma_string_round_trip(tags.vendor_string, list);
    lemma_u32_le_round_trip(count, strings_bytes(tags.user_comments) + rest);
    assert(list.skip(4) =~= strings_bytes(tags.user_comments) + rest);
    lemma_strings_round_trip(tags.user_comments, rest);
}

/// Whether `bytes` are the comment header signature.
fn is_tags_magic(bytes: &[u8]) -> (same: bool)
    requires
        bytes@.len() == 8,
    ensures
        same == (bytes@ == tags_magic()),
{
    let same = bytes[0] == 0x4f && bytes[1] == 0x70 && bytes[2] == 0x75 && bytes[3] == 0x73
        && bytes[4] == 0x54 && bytes[5] == 0x61 && bytes[6] == 0x67 && bytes[7] == 0x73;
    proof {
        if same {
            assert(bytes@ =~= tags_magic());
        }
    }
    same
}

/// Reads one length-prefixed text field.
///
/// The length is checked against what is left before any byte of the
/// content is copied, so a length far beyond the data fails without an
/// allocation of that size.
fn read_string(rdr: &mut ByteCursor<'_>) -> (read: Result<String, FormatError>)
    ensures
        match read {
            Ok(text) => parse_string(old(rdr)@) == Ok::<Seq<char>, FormatError>(text@),
            Err(error) => parse_string(old(rdr)@) == Err::<Seq<char>, FormatError>(error),
        },
        final(rdr)@ == after_string(old(rdr)@),
{
    let length = match rdr.read_u32_le() {
        Ok(length) => length,
        Err(error) => {
            return Err(error);
        },
    };
    let body = match rdr.read_exact(length as usize) {
        Ok(body) => body,
        Err(error) => {
            return Err(error);
        },
    };
    assert(body@ == string_body(old(rdr)@));
    match String::from_utf8(slice_to_vec(body)) {
        Ok(text) => Ok(text),
        Err(_) => Err(FormatError::InvalidEncoding),
    }
}

impl OpusTags {
    /// Reads a comment header from `rdr`.
    ///
    /// The result holds the vendor text and every comment that the unread
    /// bytes start with, or is the first fault met in reading order. The
    /// cursor moves past what was read.
    pub fn read(rdr: &mut ByteCursor<'_>) -> (parsed: Result<OpusTags, FormatError>)
        ensures
            match parsed {
                Ok(tags) => parse_tags(old(rdr)@) == Ok::<OpusTagsView, FormatError>(tags@),
                Err(error) => parse_tags(old(rdr)@) == Err::<OpusTagsView, FormatError>(error),
            },
            final(rdr)@ == after_tags(old(rdr)@),
    {
        let magic = match rdr.read_exact(8) {
            Ok(magic) => magic,
            Err(error) => {
                return Err(error);
            },
        };
        if !is_tags_magic(magic) {
            return Err(FormatError::BadMagic);
        }
        let vendor_string = match read_string(rdr) {
            Ok(text) => text,
            Err(error) => {
                return Err(error);
            },
        };
        let count = match rdr.read_u32_le() {
            Ok(count) => count,
            Err(error) => {
                return Err(error);
            },
        };
        let ghost list = rdr@;
        let mut user_comments: Vec<String> = Vec::new();
        let mut done: u32 = 0;
        while done < count
            invariant
                done <= count,
                user_comments.deep_view().len() == done,
                parse_tags(old(rdr)@) == match parse_strings(list, count as nat) {
                    Err(error) => Err::<OpusTagsView, FormatError>(error),
                    Ok(comments) => Ok(
                        OpusTagsView { vendor_string: vendor_string@, user_comments: comments },
                    ),
                },
                after_tags(old(rdr)@) == after_strings(list, count as nat),
                parse_strings(list, count as nat) == match parse_strings(
                    rdr@,
                    (count - done) as nat,
                ) {
                    Err(error) => Err::<Seq<Seq<char>>, FormatError>(error),
                    Ok(rest) => Ok(user_comments.deep_view() + rest),
                },
                after_strings(list, count as nat) == after_strings(rdr@, (count - done) as nat),
            decreases count - done,
        {
            let ghost before = user_comments.deep_view();
            let comment = match read_string(rdr) {
                Ok(text) => text,
                Err(error) => {
                    return Err(error);
                },
            };
            user_comments.push(comment);
            done = done + 1;
            proof {
                assert(user_comments.deep_view() =~= before.push(comment@));
                match parse_strings(rdr@, (count - done) as nat) {
                    Ok(rest) => {
                        assert(before + (seq![comment@] + rest) =~= before.push(comment@) + rest);
                    },
                    Err(_) => {},
                }
            }
        }
        proof {
            assert(user_comments.deep_view() + Seq::<Seq<char>>::empty()
                =~= user_comments.deep_view());
        }
        Ok(OpusTags { vendor_string, user_comments })
    }
}

} // verus!
