//! A packet: a header and a body at least as long as the header declares.

use vstd::prelude::*;
use crate::error::{CodecError, Field};
use crate::flags::TacacsFlags;
use crate::header::{
    header_bytes, lemma_header_round_trip, parse_header, Header, TACACS_HEADER_LENGTH,
};
use crate::obfuscation::{convert, convert_inplace, obfuscate};

verus! {

/// Read access to a packet's header and body.
pub trait PacketTrait {
    spec fn spec_header(&self) -> Header;

    spec fn spec_body(&self) -> Seq<u8>;

    fn header(&self) -> (r: &Header)
        ensures
            *r == self.spec_header(),
    ;

    fn body(&self) -> (r: &Vec<u8>)
        ensures
            r@ == self.spec_body(),
    ;
}

/// A header and its body. The body holds at least `header.length` bytes;
/// bytes past that are kept but no body decoder reads them.
#[derive(Debug)]
pub struct Packet {
    header: Header,
    body: Vec<u8>,
}

impl Clone for Packet {
    fn clone(&self) -> (r: Self)
        ensures
            r.spec_header() == self.spec_header(),
            r.spec_body() == self.spec_body(),
    {
        proof {
            use_type_invariant(self);
        }
        Packet { header: self.header, body: self.body.clone() }
    }
}

impl PacketTrait for Packet {
    closed spec fn spec_header(&self) -> Header {
        self.header
    }

    closed spec fn spec_body(&self) -> Seq<u8> {
        self.body@
    }

    fn header(&self) -> (r: &Header) {
        &self.header
    }

    fn body(&self) -> (r: &Vec<u8>) {
        &self.body
    }
}

/// The header with `UNENCRYPTED` set or cleared and every other field kept.
pub open spec fn with_unencrypted(h: Header, unencrypted: bool) -> Header {
    Header { flags: TacacsFlags { unencrypted, ..h.flags }, ..h }
}

/// What decoding `data` as a whole packet gives: the header of the first 12
/// bytes and the rest as the body, or the header's error, or `BodyTooShort`
/// where fewer bytes follow than the header declares.
pub open spec fn parse_packet(data: Seq<u8>) -> Result<(Header, Seq<u8>), CodecError> {
    match parse_header(data) {
        Err(e) => Err(e),
        Ok(h) => if data.len() - 12 < h.length {
            Err(CodecError::BodyTooShort(Field::Packet))
        } else {
            Ok((h, data.subrange(12, data.len() as int)))
        },
    }
}

/// Decoding the bytes of a header followed by a body that covers its
/// declared length gives that header and body back.
pub proof fn lemma_packet_round_trip(h: Header, body: Seq<u8>)
    requires
        body.len() >= h.length,
    ensures
        parse_packet(header_bytes(h) + body) == Ok::<(Header, Seq<u8>), CodecError>((h, body)),
{
    let data = header_bytes(h) + body;
    lemma_header_round_trip(h);
    assert(data.subrange(0, 12) =~= header_bytes(h));
    lemma_parse_header_prefix(data);
    assert(data.subrange(12, data.len() as int) =~= body);
}

/// Decoding a header reads the first 12 bytes only.
proof fn lemma_parse_header_prefix(data: Seq<u8>)
    requires
        data.len() >= 12,
    ensures
        parse_header(data) == parse_header(data.subrange(0, 12)),
{
    let p = data.subrange(0, 12);
    assert(p.subrange(4, 8) =~= data.subrange(4, 8));
    assert(p.subrange(8, 12) =~= data.subrange(8, 12));
}

impl Packet {
    #[verifier::type_invariant]
    spec fn body_covers_length(&self) -> bool {
        self.body@.len() >= self.header.length
    }

    /// A packet of `header` and `body`; fails with `BodyTooShort` where the
    /// body is shorter than `header.length`.
    pub fn new(header: Header, body: Vec<u8>) -> (r: Result<Packet, CodecError>)
        ensures
            body@.len() >= header.length ==> (r matches Ok(p) && p.spec_header() == header
                && p.spec_body() == body@),
            body@.len() < header.length ==> r == Err::<Packet, CodecError>(
                CodecError::BodyTooShort(Field::Packet),
            ),
    {
        if body.len() < header.length as usize {
            return Err(CodecError::BodyTooShort(Field::Packet));
        }
        Ok(Packet { header, body })
    }

    /// A copy of the body.
    pub fn body_copy(&self) -> (r: Vec<u8>)
        ensures
            r@ == self.spec_body(),
    {
        self.body.clone()
    }

    /// The packet on the wire: the header's 12 bytes, then the body.
    pub fn to_bytes(&self) -> (r: Vec<u8>)
        ensures
            r@ == header_bytes(self.spec_header()) + self.spec_body(),
    {
        let h = self.header.to_bytes();
        let mut bytes: Vec<u8> = Vec::new();
        let mut i: usize = 0;
        while i < 12
            invariant
                0 <= i <= 12,
                h@.len() == 12,
                bytes@ == h@.subrange(0, i as int),
            decreases 12 - i,
        {
            bytes.push(h[i]);
            i = i + 1;
            assert(bytes@ =~= h@.subrange(0, i as int));
        }
        let mut j: usize = 0;
        while j < self.body.len()
            invariant
                0 <= j <= self.body@.len(),
                h@.len() == 12,
                bytes@ == h@ + self.body@.subrange(0, j as int),
            decreases self.body@.len() - j,
        {
            bytes.push(self.body[j]);
            j = j + 1;
            assert(bytes@ =~= h@ + self.body@.subrange(0, j as int));
        }
        assert(bytes@ =~= h@ + self.body@);
        bytes
    }

    /// Decodes a whole packet: a header, then the body. Fails as
    /// `Header::from_bytes` does, and with `BodyTooShort` where fewer bytes
    /// follow the header than it declares.
    pub fn from_bytes(data: &[u8]) -> (r: Result<Self, CodecError>)
        ensures
            match parse_packet(data@) {
                Ok((h, b)) => r matches Ok(p) && p.spec_header() == h && p.spec_body() == b,
                Err(e) => r == Err::<Packet, CodecError>(e),
            },
    {
        let header = match Header::from_bytes(data) {
            Ok(h) => h,
            Err(e) => return Err(e),
        };
        let body = vstd::slice::slice_to_vec(&data[TACACS_HEADER_LENGTH..data.len()]);
        Packet::new(header, body)
    }

    /// The packet obfuscated under `obfuscation_key`, with `UNENCRYPTED`
    /// cleared; `None` where the packet is already obfuscated.
    pub fn as_obfuscated(&self, obfuscation_key: &[u8]) -> (r: Option<Self>)
        ensures
            !self.spec_header().flags.unencrypted ==> r is None,
            self.spec_header().flags.unencrypted ==> (r matches Some(p) && p.spec_header()
                == with_unencrypted(self.spec_header(), false) && p.spec_body() == obfuscate(
                self.spec_header(),
                obfuscation_key@,
                self.spec_body(),
            )),
    {
        if !self.header.flags.unencrypted {
            return None;
        }
        proof {
            use_type_invariant(self);
        }
        let mut header = self.header;
        header.flags.unencrypted = false;
        let body = convert(&self.header, self.body.as_slice(), obfuscation_key);
        Some(Packet { header, body })
    }

    /// The packet deobfuscated under `obfuscation_key`, with `UNENCRYPTED`
    /// set; `None` where the packet is already in clear text.
    pub fn as_deobfuscated(&self, obfuscation_key: &[u8]) -> (r: Option<Self>)
        ensures
            self.spec_header().flags.unencrypted ==> r is None,
            !self.spec_header().flags.unencrypted ==> (r matches Some(p) && p.spec_header()
                == with_unencrypted(self.spec_header(), true) && p.spec_body() == obfuscate(
                self.spec_header(),
                obfuscation_key@,
                self.spec_body(),
            )),
    {
        if self.header.flags.unencrypted {
            return None;
        }
        proof {
            use_type_invariant(self);
        }
        let mut header = self.header;
        header.flags.unencrypted = true;
        let body = convert(&self.header, self.body.as_slice(), obfuscation_key);
        Some(Packet { header, body })
    }

    /// The packet obfuscated under `obfuscation_key`, with `UNENCRYPTED`
    /// cleared; unchanged where it is already obfuscated.
    pub fn to_obfuscated(self, obfuscation_key: &[u8]) -> (r: Self)
        ensures
            !self.spec_header().flags.unencrypted ==> r.spec_header() == self.spec_header()
                && r.spec_body() == self.spec_body(),
            self.spec_header().flags.unencrypted ==> r.spec_header() == with_unencrypted(
                self.spec_header(),
                false,
            ) && r.spec_body() == obfuscate(self.spec_header(), obfuscation_key@, self.spec_body()),
    {
        if !self.header.flags.unencrypted {
            return self;
        }
        proof {
            use_type_invariant(&self);
        }
        let Packet { header, mut body } = self;
        convert_inplace(&header, body.as_mut_slice(), obfuscation_key);
        let mut header = header;
        header.flags.unencrypted = false;
        Packet { header, body }
    }

    /// The packet deobfuscated under `obfuscation_key`, with `UNENCRYPTED`
    /// set; unchanged where it is already in clear text.
    pub fn to_deobfuscated(self, obfuscation_key: &[u8]) -> (r: Self)
        ensures
            self.spec_header().flags.unencrypted ==> r.spec_header() == self.spec_header()
                && r.spec_body() == self.spec_body(),
            !self.spec_header().flags.unencrypted ==> r.spec_header() == with_unencrypted(
                self.spec_header(),
                true,
            ) && r.spec_body() == obfuscate(self.spec_header(), obfuscation_key@, self.spec_body()),
    {
        if self.header.flags.unencrypted {
            return self;
        }
        proof {
            use_type_invariant(&self);
        }
        let Packet { header, mut body } = self;
        convert_inplace(&header, body.as_mut_slice(), obfuscation_key);
        let mut header = header;
        header.flags.unencrypted = true;
        Packet { header, body }
    }
}

} // verus!
