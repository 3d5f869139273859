//! The body obfuscation: a keystream of chained MD5 digests, XORed with the
//! body. Applying it twice with the same header and key gives the body back.

use vstd::prelude::*;
use crate::bytes::{be32_bytes, u32_to_be_bytes};
use crate::header::{version_byte, Header};

verus! {

/// The MD5 digest of `input`.
pub uninterp spec fn md5_of(input: Seq<u8>) -> Seq<u8>;

/// Relies on `md5::Md5` (the md-5 crate) through `Digest::digest`: the
/// result is the 16-byte MD5 digest of the input, which depends on the
/// input alone.
#[verifier::external_body]
fn md5_digest(input: &[u8]) -> (r: [u8; 16])
    ensures
        r@ == md5_of(input@),
{
    <md5::Md5 as md5::Digest>::digest(input).into()
}

/// The first block hashed for a header and key: the session id
/// (big-endian), the key, the version byte and the sequence number.
pub open spec fn pad_iv(h: Header, key: Seq<u8>) -> Seq<u8> {
    be32_bytes(h.session_id) + key + seq![version_byte(h), h.seq_no]
}

/// The `i`-th digest of the keystream: `MD5(iv)` first, then
/// `MD5(iv ‖ previous digest)`.
pub open spec fn pad_block(iv: Seq<u8>, i: nat) -> Seq<u8>
    decreases i,
{
    if i == 0 {
        md5_of(iv)
    } else {
        md5_of(iv + pad_block(iv, (i - 1) as nat))
    }
}

/// The first `k` digests of the keystream, concatenated.
pub open spec fn keystream(iv: Seq<u8>, k: nat) -> Seq<u8>
    decreases k,
{
    if k == 0 {
        Seq::empty()
    } else {
        keystream(iv, (k - 1) as nat) + pad_block(iv, (k - 1) as nat)
    }
}

/// The number of 16-byte digests that cover `n` bytes.
pub open spec fn blocks_for(n: nat) -> nat {
    ((n + 15) / 16) as nat
}

/// The pad of `n` bytes for a header and key: the keystream cut to `n`.
pub open spec fn obfuscation_pad(h: Header, key: Seq<u8>, n: nat) -> Seq<u8> {
    keystream(pad_iv(h, key), blocks_for(n)).take(n as int)
}

/// Each byte of `data` XORed with the byte of `pad` at the same index.
pub open spec fn xor_bytes(data: Seq<u8>, pad: Seq<u8>) -> Seq<u8> {
    Seq::new(data.len(), |i: int| data[i] ^ pad[i])
}

/// A body obfuscated, or deobfuscated, under a header and key.
pub open spec fn obfuscate(h: Header, key: Seq<u8>, body: Seq<u8>) -> Seq<u8> {
    xor_bytes(body, obfuscation_pad(h, key, body.len()))
}

/// Obfuscating twice with the same header and key gives the body back.
pub proof fn lemma_obfuscation_involution(h: Header, key: Seq<u8>, body: Seq<u8>)
    ensures
        obfuscate(h, key, obfuscate(h, key, body)) == body,
{
    let p = obfuscation_pad(h, key, body.len());
    let once = obfuscate(h, key, body);
    assert forall|i: int| 0 <= i < body.len() implies #[trigger] obfuscate(h, key, once)[i]
        == body[i] by {
        let x = body[i];
        let y = p[i];
        assert((x ^ y) ^ y == x) by (bit_vector);
    }
    assert(obfuscate(h, key, once) =~= body);
}

/// The pad depends on the session id, the version byte, the sequence number,
/// the key and the length alone.
pub proof fn lemma_pad_determined(h1: Header, h2: Header, key: Seq<u8>, n: nat)
    requires
        h1.session_id == h2.session_id,
        version_byte(h1) == version_byte(h2),
        h1.seq_no == h2.seq_no,
    ensures
        obfuscation_pad(h1, key, n) == obfuscation_pad(h2, key, n),
{
    assert(pad_iv(h1, key) == pad_iv(h2, key));
}

/// The first block hashed for `header` and `obfuscation_key`.
pub fn get_first_block(header: &Header, obfuscation_key: &[u8]) -> (r: Vec<u8>)
    ensures
        r@ == pad_iv(*header, obfuscation_key@),
{
    let id = u32_to_be_bytes(header.session_id);
    let mut iv: Vec<u8> = Vec::new();
    iv.push(id[0]);
    iv.push(id[1]);
    iv.push(id[2]);
    iv.push(id[3]);
    let mut i: usize = 0;
    while i < obfuscation_key.len()
        invariant
            0 <= i <= obfuscation_key@.len(),
            iv@ == be32_bytes(header.session_id) + obfuscation_key@.subrange(0, i as int),
        decreases obfuscation_key@.len() - i,
    {
        iv.push(obfuscation_key[i]);
        i = i + 1;
        assert(obfuscation_key@.subrange(0, i as int) =~= obfuscation_key@.subrange(0, i - 1 as int).push(obfuscation_key@[i - 1]));
    }
    assert(obfuscation_key@.subrange(0, obfuscation_key@.len() as int) =~= obfuscation_key@);
    iv.push(header.version());
    iv.push(header.seq_no);
    assert(iv@ =~= pad_iv(*header, obfuscation_key@));
    iv
}

/// The pad of `n` bytes for `header` and `obfuscation_key`.
pub fn pad_of_length(header: &Header, obfuscation_key: &[u8], n: usize) -> (r: Vec<u8>)
    ensures
        r@ == obfuscation_pad(*header, obfuscation_key@, n as nat),
        r@.len() == n,
{
    let iv = get_first_block(header, obfuscation_key);
    let ghost g = iv@;
    let mut pad: Vec<u8> = Vec::new();
    let mut k: usize = 0;
    let mut last: [u8; 16] = [0u8; 16];
    while pad.len() < n
        invariant
            iv@ == g,
            keystream(g, k as nat).len() == 16 * k,
            pad@ == keystream(g, k as nat).take(pad@.len() as int),
            pad@.len() <= n,
            pad@.len() <= 16 * k,
            pad@.len() < n ==> pad@.len() == 16 * k,
            k == 0 || 16 * (k - 1) < n,
            k > 0 ==> last@ == pad_block(g, (k - 1) as nat),
        decreases n - pad@.len(),
    {
        let mut input: Vec<u8> = iv.clone();
        if k > 0 {
            let mut j: usize = 0;
            while j < 16
                invariant
                    0 <= j <= 16,
                    input@ == g + last@.subrange(0, j as int),
                decreases 16 - j,
            {
                input.push(last[j]);
                j = j + 1;
                assert(last@.subrange(0, j as int) =~= last@.subrange(0, j - 1 as int).push(
                    last@[j - 1],
                ));
            }
            assert(last@.subrange(0, 16) =~= last@);
        } else {
            assert(input@ =~= g);
        }
        last = md5_digest(input.as_slice());
        let ghost before = pad@;
        let ghost ks = keystream(g, (k + 1) as nat);
        assert(ks =~= keystream(g, k as nat) + last@);
        let mut j: usize = 0;
        while j < 16 && pad.len() < n
            invariant
                0 <= j <= 16,
                before.len() == 16 * k,
                ks.len() == 16 * k + 16,
                ks == keystream(g, k as nat) + last@,
                before == keystream(g, k as nat),
                pad@.len() == before.len() + j,
                pad@.len() <= n,
                pad@ == ks.take(pad@.len() as int),
            decreases 16 - j,
        {
            pad.push(last[j]);
            j = j + 1;
            assert(pad@ =~= ks.take(pad@.len() as int));
        }
        k = k + 1;
    }
    assert(k as nat == blocks_for(n as nat));
    pad
}

/// The pad for a body of `header.length` bytes.
pub fn generate_pad(header: &Header, obfuscation_key: &[u8]) -> (r: Vec<u8>)
    ensures
        r@ == obfuscation_pad(*header, obfuscation_key@, header.length as nat),
        r@.len() == header.length,
{
    pad_of_length(header, obfuscation_key, header.length as usize)
}

/// `data` obfuscated (or deobfuscated) under `header` and `obfuscation_key`.
pub fn convert(header: &Header, data: &[u8], obfuscation_key: &[u8]) -> (r: Vec<u8>)
    ensures
        r@ == obfuscate(*header, obfuscation_key@, data@),
{
    let pad = pad_of_length(header, obfuscation_key, data.len());
    let mut out: Vec<u8> = Vec::new();
    let mut i: usize = 0;
    while i < data.len()
        invariant
            0 <= i <= data@.len(),
            pad@ == obfuscation_pad(*header, obfuscation_key@, data@.len()),
            pad@.len() == data@.len(),
            out@ == obfuscate(*header, obfuscation_key@, data@).subrange(0, i as int),
        decreases data@.len() - i,
    {
        out.push(data[i] ^ pad[i]);
        i = i + 1;
        assert(out@ =~= obfuscate(*header, obfuscation_key@, data@).subrange(0, i as int));
    }
    assert(out@ =~= obfuscate(*header, obfuscation_key@, data@));
    out
}

/// Obfuscates (or deobfuscates) `data` in place.
pub fn convert_inplace(header: &Header, data: &mut [u8], obfuscation_key: &[u8])
    ensures
        final(data)@ == obfuscate(*header, obfuscation_key@, old(data)@),
{
    let pad = pad_of_length(header, obfuscation_key, data.len());
    let ghost orig = data@;
    let mut i: usize = 0;
    while i < data.len()
        invariant
            0 <= i <= data@.len(),
            data@.len() == orig.len(),
            pad@ == obfuscation_pad(*header, obfuscation_key@, orig.len()),
            pad@.len() == orig.len(),
            forall|j: int| 0 <= j < i ==> data@[j] == obfuscate(*header, obfuscation_key@, orig)[j],
            forall|j: int| i <= j < data@.len() ==> data@[j] == orig[j],
        decreases data@.len() - i,
    {
        let b = data[i] ^ pad[i];
        data[i] = b;
        i = i + 1;
    }
    assert(data@ =~= obfuscate(*header, obfuscation_key@, orig));
}

} // verus!
