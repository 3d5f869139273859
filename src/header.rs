//! The fixed 12-byte packet header.

use vstd::prelude::*;
use crate::bytes::{be32, be32_bytes, lemma_be32_round_trip, u32_from_be_bytes, u32_to_be_bytes};
use crate::enumerations::{TacacsMajorVersion, TacacsMinorVersion, TacacsType};
use crate::error::{CodecError, Field};
use crate::flags::TacacsFlags;

verus! {

/// The length of a header on the wire.
pub const TACACS_HEADER_LENGTH: usize = 12;

/// A packet header. Every value of this type is a legal header: each field
/// can only hold what the protocol recognises.
#[derive(Debug, Clone, Copy, PartialEq, Eq, Structural)]
pub struct Header {
    pub major_version: TacacsMajorVersion,
    pub minor_version: TacacsMinorVersion,
    pub tacacs_type: TacacsType,
    pub seq_no: u8,
    pub flags: TacacsFlags,
    pub session_id: u32,
    pub length: u32,
}

/// The packed version byte: major version in the high nibble, minor in the
/// low one.
pub open spec fn version_byte(h: Header) -> u8 {
    (h.major_version.spec_to_u8() * 16 + h.minor_version.spec_to_u8()) as u8
}

/// The 12 bytes of a header on the wire.
pub open spec fn header_bytes(h: Header) -> Seq<u8> {
    seq![version_byte(h), h.tacacs_type.spec_to_u8(), h.seq_no, h.flags.spec_bits()] + be32_bytes(
        h.session_id,
    ) + be32_bytes(h.length)
}

/// What decoding the bytes `b` as a header gives: the header in the first
/// 12 bytes, or the first check that fails, in the order short buffer,
/// major version, minor version, type, flags.
pub open spec fn parse_header(b: Seq<u8>) -> Result<Header, CodecError> {
    if b.len() < 12 {
        Err(CodecError::ShortBuffer(Field::Header))
    } else {
        match TacacsMajorVersion::spec_from_u8(b[0] / 16) {
            None => Err(CodecError::InvalidEnum(Field::MajorVersion)),
            Some(major_version) => match TacacsMinorVersion::spec_from_u8(b[0] % 16) {
                None => Err(CodecError::InvalidEnum(Field::MinorVersion)),
                Some(minor_version) => match TacacsType::spec_from_u8(b[1]) {
                    None => Err(CodecError::InvalidEnum(Field::PacketType)),
                    Some(tacacs_type) => match TacacsFlags::spec_from_bits(b[3]) {
                        None => Err(CodecError::InvalidFlags(Field::HeaderFlags)),
                        Some(flags) => Ok(
                            Header {
                                major_version,
                                minor_version,
                                tacacs_type,
                                seq_no: b[2],
                                flags,
                                session_id: be32(b.subrange(4, 8)) as u32,
                                length: be32(b.subrange(8, 12)) as u32,
                            },
                        ),
                    },
                },
            },
        }
    }
}

/// Decoding the bytes of a header gives the header back.
pub proof fn lemma_header_round_trip(h: Header)
    ensures
        header_bytes(h).len() == 12,
        parse_header(header_bytes(h)) == Ok::<Header, CodecError>(h),
{
    let b = header_bytes(h);
    lemma_be32_round_trip(h.session_id);
    lemma_be32_round_trip(h.length);
    h.major_version.lemma_from_to();
    h.minor_version.lemma_from_to();
    h.tacacs_type.lemma_from_to();
    h.flags.lemma_from_to();
    assert(b.subrange(4, 8) =~= be32_bytes(h.session_id));
    assert(b.subrange(8, 12) =~= be32_bytes(h.length));
    assert(b[0] / 16 == h.major_version.spec_to_u8());
    assert(b[0] % 16 == h.minor_version.spec_to_u8());
}

impl Header {
    /// The packed version byte.
    pub fn version(&self) -> (r: u8)
        ensures
            r == version_byte(*self),
    {
        self.major_version.to_u8() * 16 + self.minor_version.to_u8()
    }

    /// Decodes a header from the first 12 bytes of `data`. Fails with
    /// `ShortBuffer` on fewer than 12 bytes, `InvalidEnum` on an unknown
    /// major version, minor version or type, and `InvalidFlags` on an
    /// unknown flag bit.
    pub fn from_bytes(data: &[u8]) -> (r: Result<Header, CodecError>)
        ensures
            r == parse_header(data@),
    {
        if data.len() < TACACS_HEADER_LENGTH {
            return Err(CodecError::ShortBuffer(Field::Header));
        }
        let major_version = match TacacsMajorVersion::from_u8(data[0] / 16) {
            Some(v) => v,
            None => return Err(CodecError::InvalidEnum(Field::MajorVersion)),
        };
        let minor_version = match TacacsMinorVersion::from_u8(data[0] % 16) {
            Some(v) => v,
            None => return Err(CodecError::InvalidEnum(Field::MinorVersion)),
        };
        let tacacs_type = match TacacsType::from_u8(data[1]) {
            Some(t) => t,
            None => return Err(CodecError::InvalidEnum(Field::PacketType)),
        };
        let seq_no = data[2];
        let flags = match TacacsFlags::from_bits(data[3]) {
            Some(f) => f,
            None => return Err(CodecError::InvalidFlags(Field::HeaderFlags)),
        };
        let session_id = u32_from_be_bytes(data[4], data[5], data[6], data[7]);
        let length = u32_from_be_bytes(data[8], data[9], data[10], data[11]);
        assert(data@.subrange(4, 8) =~= seq![data@[4], data@[5], data@[6], data@[7]]);
        assert(data@.subrange(8, 12) =~= seq![data@[8], data@[9], data@[10], data@[11]]);
        Ok(Header { major_version, minor_version, tacacs_type, seq_no, flags, session_id, length })
    }

    /// The 12 bytes of this header on the wire.
    pub fn to_bytes(&self) -> (r: [u8; 12])
        ensures
            r@ == header_bytes(*self),
    {
        let s = u32_to_be_bytes(self.session_id);
        let l = u32_to_be_bytes(self.length);
        let r = [
            self.version(),
            self.tacacs_type.to_u8(),
            self.seq_no,
            self.flags.bits(),
            s[0],
            s[1],
            s[2],
            s[3],
            l[0],
            l[1],
            l[2],
            l[3],
        ];
        assert(r@ =~= header_bytes(*self));
        r
    }
}

} // verus!
