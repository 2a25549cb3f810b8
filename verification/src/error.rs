//! The ways in which decoding and conversion fail.

use vstd::prelude::*;

verus! {

/// Why a header packet could not be decoded.
#[derive(Clone, Copy, Debug, PartialEq, Eq, Structural)]
pub enum FormatError {
    /// The packet does not start with the eight-byte signature it must carry.
    BadMagic,
    /// The identification header declares a version other than 1.
    UnsupportedVersion,
    /// A text field holds bytes that are not UTF-8.
    InvalidEncoding,
    /// The data ended before the field being read was complete.
    TruncatedInput,
}

impl FormatError {
    /// The text that `describe` returns for each error.
    pub open spec fn text(self) -> Seq<char> {
        match self {
            FormatError::BadMagic => "missing magic signature"@,
            FormatError::UnsupportedVersion => "invalid version"@,
            FormatError::InvalidEncoding => "invalid utf-8 sequence"@,
            FormatError::TruncatedInput => "failed to fill whole buffer"@,
        }
    }

    /// A short message that names the failure.
    pub fn describe(&self) -> (message: String)
        ensures
            message@ == self.text(),
    {
        match self {
            FormatError::BadMagic => "missing magic signature".to_owned(),
            FormatError::UnsupportedVersion => "invalid version".to_owned(),
            FormatError::InvalidEncoding => "invalid utf-8 sequence".to_owned(),
            FormatError::TruncatedInput => "failed to fill whole buffer".to_owned(),
        }
    }
}

/// Why the Ogg container could not be read any further.
#[derive(Clone, Copy, Debug, PartialEq, Eq, Structural)]
pub enum DemuxError {
    /// No page start was found where one was expected.
    NoCapturePattern,
    /// A page declares the given stream structure version, which is not 0.
    InvalidStreamVersion(u8),
    /// A page's checksum differs from the one computed over it: the one
    /// stored, then the one computed.
    HashMismatch(u32, u32),
    /// The bytes ended inside a page, or could not be read.
    Io,
    /// The pages break a rule of the container format.
    InvalidData,
}

impl DemuxError {
    /// The text that `describe` returns for each error.
    pub open spec fn text(self) -> Seq<char> {
        match self {
            DemuxError::NoCapturePattern => "no Ogg capture pattern found"@,
            DemuxError::InvalidStreamVersion(_) => "unsupported Ogg stream structure version"@,
            DemuxError::HashMismatch(_, _) => "Ogg page checksum mismatch"@,
            DemuxError::Io => "Ogg stream could not be read to the end of a page"@,
            DemuxError::InvalidData => "Ogg stream breaks a rule of the container format"@,
        }
    }

    /// A short message that names the failure.
    pub fn describe(&self) -> (message: String)
        ensures
            message@ == self.text(),
    {
        match self {
            DemuxError::NoCapturePattern => "no Ogg capture pattern found".to_owned(),
            DemuxError::InvalidStreamVersion(_) => "unsupported Ogg stream structure version"
                .to_owned(),
            DemuxError::HashMismatch(_, _) => "Ogg page checksum mismatch".to_owned(),
            DemuxError::Io => "Ogg stream could not be read to the end of a page".to_owned(),
            DemuxError::InvalidData => "Ogg stream breaks a rule of the container format"
                .to_owned(),
        }
    }
}

/// Why a conversion stopped.
#[derive(Clone, Copy, Debug, PartialEq, Eq, Structural)]
pub enum ConvertError {
    /// The stream holds no packet at all.
    MissingHeader,
    /// The stream ends after its first packet.
    MissingComments,
    /// One of the two header packets does not decode.
    Format(FormatError),
    /// The container could not be read.
    Demux(DemuxError),
    /// The conversion had already ended when more was asked of it.
    Closed,
}

impl ConvertError {
    /// The text that `describe` returns for each error. A fault in the
    /// header or in the container is described by its own text.
    pub open spec fn text(self) -> Seq<char> {
        match self {
            ConvertError::MissingHeader => "missing identification header packet"@,
            ConvertError::MissingComments => "missing comment header packet"@,
            ConvertError::Format(error) => error.text(),
            ConvertError::Demux(error) => error.text(),
            ConvertError::Closed => "conversion has already ended"@,
        }
    }

    /// A short message that names the failure and so the stage that failed.
    pub fn describe(&self) -> (message: String)
        ensures
            message@ == self.text(),
    {
        match self {
            ConvertError::MissingHeader => "missing identification header packet".to_owned(),
            ConvertError::MissingComments => "missing comment header packet".to_owned(),
            ConvertError::Format(error) => error.describe(),
            ConvertError::Demux(error) => error.describe(),
            ConvertError::Closed => "conversion has already ended".to_owned(),
        }
    }
}

} // verus!
