//! Reading and writing the primitive pieces of the wire format: bytes,
//! big-endian integers and UTF-8 strings.

use vstd::prelude::*;
use vstd::utf8::*;
use crate::error::{CodecError, Field, ReadError};

verus! {

broadcast use vstd::string::group_string_axioms;

/// The value of two bytes read as a big-endian integer.
pub open spec fn be16(hi: u8, lo: u8) -> int {
    hi as int * 256 + lo as int
}

/// The value of four bytes read as a big-endian integer.
pub open spec fn be32(b: Seq<u8>) -> int
    recommends
        b.len() == 4,
{
    b[0] as int * 16777216 + b[1] as int * 65536 + b[2] as int * 256 + b[3] as int
}

/// The four bytes of `x`, most significant first.
pub open spec fn be32_bytes(x: u32) -> Seq<u8> {
    seq![
        (x / 16777216) as u8,
        ((x / 65536) % 256) as u8,
        ((x / 256) % 256) as u8,
        (x % 256) as u8,
    ]
}

/// The two bytes of `x`, most significant first.
pub open spec fn be16_bytes(x: u16) -> Seq<u8> {
    seq![(x / 256) as u8, (x % 256) as u8]
}

/// Reading back the bytes of a `u32` gives the `u32`.
pub proof fn lemma_be32_round_trip(x: u32)
    ensures
        be32_bytes(x).len() == 4,
        be32(be32_bytes(x)) == x as int,
{
    let b = be32_bytes(x);
    assert(b[0] as int == x as int / 16777216);
    assert(b[1] as int == (x as int / 65536) % 256);
    assert(b[2] as int == (x as int / 256) % 256);
    assert(b[3] as int == x as int % 256);
}

/// Reading back the bytes of a `u16` gives the `u16`.
pub proof fn lemma_be16_round_trip(x: u16)
    ensures
        be16_bytes(x).len() == 2,
        be16(be16_bytes(x)[0], be16_bytes(x)[1]) == x as int,
{
}

/// The UTF-8 bytes of a string.
pub open spec fn utf8_of(s: Seq<char>) -> Seq<u8> {
    encode_utf8(s)
}

/// The big-endian bytes of `x`.
pub fn u32_to_be_bytes(x: u32) -> (r: [u8; 4])
    ensures
        r@ == be32_bytes(x),
{
    [(x / 16777216) as u8, ((x / 65536) % 256) as u8, ((x / 256) % 256) as u8, (x % 256) as u8]
}

/// The `u32` of four big-endian bytes.
pub fn u32_from_be_bytes(b0: u8, b1: u8, b2: u8, b3: u8) -> (r: u32)
    ensures
        r as int == be32(seq![b0, b1, b2, b3]),
{
    (b0 as u32) * 16777216 + (b1 as u32) * 65536 + (b2 as u32) * 256 + (b3 as u32)
}

/// A read position over a borrowed byte slice.
pub struct ByteCursor<'a> {
    data: &'a [u8],
    pos: usize,
}

impl<'a> ByteCursor<'a> {
    /// The bytes that the cursor reads.
    pub closed spec fn data(&self) -> Seq<u8> {
        self.data@
    }

    /// The index of the next byte to read.
    pub closed spec fn pos(&self) -> int {
        self.pos as int
    }

    /// The position never passes the end of the data.
    pub closed spec fn wf(&self) -> bool {
        self.pos <= self.data@.len()
    }

    /// A cursor at the start of `data`.
    pub fn new(data: &'a [u8]) -> (r: Self)
        ensures
            r.wf(),
            r.data() == data@,
            r.pos() == 0,
    {
        ByteCursor { data, pos: 0 }
    }

    /// The index of the next byte to read.
    pub fn position(&self) -> (r: usize)
        ensures
            r as int == self.pos(),
    {
        self.pos
    }

    /// How many bytes are left to read.
    pub fn remaining(&self) -> (r: usize)
        requires
            self.wf(),
        ensures
            r as int == self.data().len() - self.pos(),
    {
        self.data.len() - self.pos
    }

    /// Reads one byte; `None`, and no move, at the end of the data.
    pub fn read_u8(&mut self) -> (r: Option<u8>)
        requires
            old(self).wf(),
        ensures
            final(self).wf(),
            final(self).data() == old(self).data(),
            old(self).pos() < old(self).data().len() ==> r == Some(old(self).data()[old(self).pos()])
                && final(self).pos() == old(self).pos() + 1,
            old(self).pos() >= old(self).data().len() ==> r is None && final(self).pos()
                == old(self).pos(),
    {
        if self.pos < self.data.len() {
            let b = self.data[self.pos];
            self.pos = self.pos + 1;
            Some(b)
        } else {
            None
        }
    }

    /// Reads a big-endian `u16`; `None`, and no move, where fewer than two
    /// bytes remain.
    pub fn read_u16_be(&mut self) -> (r: Option<u16>)
        requires
            old(self).wf(),
        ensures
            final(self).wf(),
            final(self).data() == old(self).data(),
            old(self).pos() + 2 <= old(self).data().len() ==> (r matches Some(v) && v as int == be16(
                old(self).data()[old(self).pos()],
                old(self).data()[old(self).pos() + 1],
            ) && final(self).pos() == old(self).pos() + 2),
            old(self).pos() + 2 > old(self).data().len() ==> r is None && final(self).pos()
                == old(self).pos(),
    {
        if self.data.len() - self.pos >= 2 {
            let hi = self.data[self.pos];
            let lo = self.data[self.pos + 1];
            self.pos = self.pos + 2;
            Some((hi as u16) * 256 + (lo as u16))
        } else {
            None
        }
    }

    /// Reads the next `len` bytes; `None`, and no move, where fewer remain.
    pub fn read_bytes(&mut self, len: usize) -> (r: Option<&'a [u8]>)
        requires
            old(self).wf(),
        ensures
            final(self).wf(),
            final(self).data() == old(self).data(),
            old(self).pos() + len <= old(self).data().len() ==> (r matches Some(b) && b@
                == old(self).data().subrange(old(self).pos(), old(self).pos() + len)
                && final(self).pos() == old(self).pos() + len),
            old(self).pos() + len > old(self).data().len() ==> r is None && final(self).pos()
                == old(self).pos(),
    {
        if self.data.len() - self.pos >= len {
            let start = self.pos;
            self.pos = self.pos + len;
            Some(&self.data[start..start + len])
        } else {
            None
        }
    }
}

/// Relies on `String::from_utf8`: it accepts exactly the valid UTF-8 byte
/// sequences, and the string it returns holds the characters those bytes
/// encode.
#[verifier::external_body]
fn string_from_utf8(bytes: Vec<u8>) -> (r: Option<String>)
    ensures
        r is Some <==> valid_utf8(bytes@),
        r matches Some(s) ==> s@ == decode_utf8(bytes@),
{
    String::from_utf8(bytes).ok()
}

/// Reading a string of `len` bytes at `off`: `ShortBuffer` where `b` ends
/// first, `InvalidUtf8` where the bytes are not UTF-8.
pub open spec fn parse_string(b: Seq<u8>, off: int, len: int, f: Field) -> Result<
    Seq<char>,
    CodecError,
> {
    if off + len > b.len() {
        Err(CodecError::ShortBuffer(f))
    } else if !valid_utf8(b.subrange(off, off + len)) {
        Err(CodecError::InvalidUtf8(f))
    } else {
        Ok(decode_utf8(b.subrange(off, off + len)))
    }
}

/// What reading a string of `len` bytes from cursor `before` does: where
/// fewer bytes remain, `ShortBuffer` and no move; otherwise the cursor
/// moves past them, and the result is their characters, or `InvalidUtf8`
/// where they are not UTF-8.
pub open spec fn read_string_post(
    before: ByteCursor,
    after: ByteCursor,
    len: int,
    r: Result<String, ReadError>,
) -> bool {
    let start = before.pos();
    let bytes = before.data().subrange(start, start + len);
    &&& after.wf()
    &&& after.data() == before.data()
    &&& if start + len > before.data().len() {
        r == Err::<String, ReadError>(ReadError::ShortBuffer) && after.pos() == start
    } else {
        after.pos() == start + len && if valid_utf8(bytes) {
            r matches Ok(s) && s@ == decode_utf8(bytes)
        } else {
            r == Err::<String, ReadError>(ReadError::InvalidUtf8)
        }
    }
}

/// Reads a UTF-8 string of `len` bytes. Fails with `ShortBuffer`, and does
/// not move, where fewer than `len` bytes remain; fails with `InvalidUtf8`
/// where the bytes are not UTF-8.
pub fn read_string(cursor: &mut ByteCursor, len: usize) -> (r: Result<String, ReadError>)
    requires
        old(cursor).wf(),
    ensures
        read_string_post(*old(cursor), *final(cursor), len as int, r),
{
    match cursor.read_bytes(len) {
        None => Err(ReadError::ShortBuffer),
        Some(b) => {
            let v = vstd::slice::slice_to_vec(b);
            match string_from_utf8(v) {
                Some(s) => Ok(s),
                None => Err(ReadError::InvalidUtf8),
            }
        },
    }
}

/// Appends the UTF-8 bytes of `s` to `out`.
pub fn push_str_bytes(out: &mut Vec<u8>, s: &String)
    ensures
        final(out)@ == old(out)@ + utf8_of(s@),
{
    let b = s.as_str().as_bytes();
    let mut i: usize = 0;
    while i < b.len()
        invariant
            0 <= i <= b@.len(),
            b@ == utf8_of(s@),
            out@ == old(out)@ + b@.subrange(0, i as int),
        decreases b@.len() - i,
    {
        out.push(b[i]);
        i = i + 1;
        assert(b@.subrange(0, i as int) == b@.subrange(0, i - 1 as int).push(b@[i - 1]));
    }
    assert(b@.subrange(0, b@.len() as int) == b@);
}

/// `hostname` with the protocol's port, 49, appended where it names no
/// port (holds no `:`).
pub open spec fn with_default_port(hostname: Seq<char>) -> Seq<char> {
    if hostname.contains(':') {
        hostname
    } else {
        hostname + ":49"@
    }
}

/// The server address for `hostname`: as given where it holds a `:`,
/// otherwise with the default port `:49` appended.
pub fn server_address(hostname: &str) -> (r: String)
    ensures
        r@ == with_default_port(hostname@),
{
    let n = hostname.unicode_len();
    let mut i: usize = 0;
    while i < n
        invariant
            n == hostname@.len(),
            0 <= i <= n,
            forall|j: int| 0 <= j < i ==> hostname@[j] != ':',
        decreases n - i,
    {
        if hostname.get_char(i) == ':' {
            return hostname.to_owned();
        }
        i = i + 1;
    }
    let mut r = <String as vstd::string::StringExecFns>::from_str(hostname);
    r.append(":49");
    r
}

/// The number of UTF-8 bytes of `s`.
pub fn utf8_len(s: &String) -> (r: usize)
    ensures
        r as int == utf8_of(s@).len(),
{
    s.as_str().as_bytes().len()
}

} // verus!
