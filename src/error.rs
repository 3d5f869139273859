//! The errors of the wire codec.

use vstd::prelude::*;

verus! {

/// The part of a packet that a codec error is about.
#[derive(Debug, Clone, Copy, PartialEq, Eq, Structural)]
pub enum Field {
    Header,
    MajorVersion,
    MinorVersion,
    PacketType,
    HeaderFlags,
    Packet,
    RequestBody,
    AccountingFlags,
    AuthenMethod,
    AuthenType,
    AuthenService,
    ArgSize,
    User,
    Port,
    RemAddress,
    Arg,
    ReplyBody,
    ServerMsgLen,
    DataLen,
    Status,
    ServerMsg,
    Data,
}

/// Why bytes could not be decoded, or a value could not be encoded.
#[derive(Debug, Clone, Copy, PartialEq, Eq, Structural)]
pub enum CodecError {
    /// The buffer ends before the field.
    ShortBuffer(Field),
    /// The field's byte is outside its enumeration.
    InvalidEnum(Field),
    /// The field holds an unknown flag bit.
    InvalidFlags(Field),
    /// The field's bytes are not UTF-8.
    InvalidUtf8(Field),
    /// A body is shorter than the lengths that its header or its own length
    /// fields declare.
    BodyTooShort(Field),
    /// A value is too long for its length field on the wire.
    TooLong(Field),
}

/// Why a string could not be read from a cursor.
#[derive(Debug, Clone, Copy, PartialEq, Eq, Structural)]
pub enum ReadError {
    /// Fewer bytes remain than were asked for.
    ShortBuffer,
    /// The bytes are not UTF-8.
    InvalidUtf8,
}

impl CodecError {
    /// The codec error for a failed string read of field `f`.
    pub fn from_read(e: ReadError, f: Field) -> (r: CodecError)
        ensures
            e == ReadError::ShortBuffer ==> r == CodecError::ShortBuffer(f),
            e == ReadError::InvalidUtf8 ==> r == CodecError::InvalidUtf8(f),
    {
        match e {
            ReadError::ShortBuffer => CodecError::ShortBuffer(f),
            ReadError::InvalidUtf8 => CodecError::InvalidUtf8(f),
        }
    }
}

} // verus!
