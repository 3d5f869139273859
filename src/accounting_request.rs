//! The accounting request body.
//!
//! ```text
//! flags | authen_method | priv_lvl | authen_type | authen_service |
//! user_len | port_len | rem_addr_len | arg_cnt | arg_1_len .. arg_N_len |
//! user | port | rem_addr | arg_1 .. arg_N
//! ```

use vstd::prelude::*;
use vstd::utf8::*;
use crate::bytes::{
    parse_string, push_str_bytes, read_string, read_string_post, utf8_len, utf8_of, ByteCursor,
};
use crate::enumerations::{
    TacacsAuthenticationMethod, TacacsAuthenticationService, TacacsAuthenticationType,
};
use crate::error::{CodecError, Field, ReadError};
use crate::flags::TacacsAccountingFlags;
use crate::packet::{Packet, PacketTrait};

verus! {

broadcast use vstd::string::group_string_axioms;

/// The length of the fixed part of a request body.
pub const TACACS_ACCOUNTING_REQUEST_MIN_LENGTH: usize = 9;

/// Where the table of argument lengths starts.
pub const TACACS_ACCOUNTING_ARG_SIZE_OFFSET: usize = 9;

/// An accounting request.
#[derive(Debug)]
pub struct AccountingRequest {
    pub flags: TacacsAccountingFlags,
    pub authen_method: TacacsAuthenticationMethod,
    pub priv_lvl: u8,
    pub authen_type: TacacsAuthenticationType,
    pub authen_service: TacacsAuthenticationService,
    pub user: String,
    pub port: String,
    pub rem_address: String,
    pub args: Vec<String>,
}

/// The mathematical value of an accounting request: its strings as
/// character sequences.
pub struct AccountingRequestModel {
    pub flags: TacacsAccountingFlags,
    pub authen_method: TacacsAuthenticationMethod,
    pub priv_lvl: u8,
    pub authen_type: TacacsAuthenticationType,
    pub authen_service: TacacsAuthenticationService,
    pub user: Seq<char>,
    pub port: Seq<char>,
    pub rem_address: Seq<char>,
    pub args: Seq<Seq<char>>,
}

/// The character sequences of a sequence of strings.
pub open spec fn strings_view(v: Seq<String>) -> Seq<Seq<char>> {
    v.map_values(|s: String| s@)
}

impl View for AccountingRequest {
    type V = AccountingRequestModel;

    open spec fn view(&self) -> AccountingRequestModel {
        AccountingRequestModel {
            flags: self.flags,
            authen_method: self.authen_method,
            priv_lvl: self.priv_lvl,
            authen_type: self.authen_type,
            authen_service: self.authen_service,
            user: self.user@,
            port: self.port@,
            rem_address: self.rem_address@,
            args: strings_view(self.args@),
        }
    }
}

/// A request can be written on the wire: each string fits a one-byte
/// length, and so does the number of arguments.
pub open spec fn request_legal(r: AccountingRequestModel) -> bool {
    &&& utf8_of(r.user).len() <= 255
    &&& utf8_of(r.port).len() <= 255
    &&& utf8_of(r.rem_address).len() <= 255
    &&& r.args.len() <= 255
    &&& forall|i: int| 0 <= i < r.args.len() ==> utf8_of(#[trigger] r.args[i]).len() <= 255
}

/// The table of argument lengths.
pub open spec fn arg_lens(args: Seq<Seq<char>>) -> Seq<u8> {
    Seq::new(args.len(), |i: int| utf8_of(args[i]).len() as u8)
}

/// The arguments' bytes, one after the other.
pub open spec fn arg_bytes(args: Seq<Seq<char>>) -> Seq<u8>
    decreases args.len(),
{
    if args.len() == 0 {
        Seq::empty()
    } else {
        arg_bytes(args.drop_last()) + utf8_of(args.last())
    }
}

/// The bytes of a request body on the wire.
pub open spec fn request_bytes(r: AccountingRequestModel) -> Seq<u8> {
    seq![
        r.flags.spec_bits(),
        r.authen_method.spec_to_u8(),
        r.priv_lvl,
        r.authen_type.spec_to_u8(),
        r.authen_service.spec_to_u8(),
        utf8_of(r.user).len() as u8,
        utf8_of(r.port).len() as u8,
        utf8_of(r.rem_address).len() as u8,
        r.args.len() as u8,
    ] + arg_lens(r.args) + utf8_of(r.user) + utf8_of(r.port) + utf8_of(r.rem_address) + arg_bytes(
        r.args,
    )
}

/// The sum of a table of lengths.
pub open spec fn sum_lens(lens: Seq<u8>) -> int
    decreases lens.len(),
{
    if lens.len() == 0 {
        0
    } else {
        sum_lens(lens.drop_last()) + lens.last() as int
    }
}

/// The body length that the length fields of `b` declare:
/// `9 + arg_cnt + user_len + port_len + rem_addr_len + Σ arg_i_len`.
pub open spec fn request_size(b: Seq<u8>) -> int
    recommends
        b.len() >= 9,
        b.len() >= 9 + b[8],
{
    9 + b[8] as int + b[5] as int + b[6] as int + b[7] as int + sum_lens(b.subrange(9, 9 + b[8]))
}

/// Reading the arguments with lengths `lens`, one after the other from
/// `off`; the first that fails gives the error.
pub open spec fn parse_args(b: Seq<u8>, lens: Seq<u8>, off: int) -> Result<
    Seq<Seq<char>>,
    CodecError,
>
    decreases lens.len(),
{
    if lens.len() == 0 {
        Ok(Seq::empty())
    } else {
        match parse_args(b, lens.drop_last(), off) {
            Err(e) => Err(e),
            Ok(prefix) => match parse_string(
                b,
                off + sum_lens(lens.drop_last()),
                lens.last() as int,
                Field::Arg,
            ) {
                Err(e) => Err(e),
                Ok(s) => Ok(prefix.push(s)),
            },
        }
    }
}

/// What decoding `b` as a request body gives. The checks run in wire
/// order: minimum length, flags, method, type, service, the length table,
/// then each string.
pub open spec fn parse_request(b: Seq<u8>) -> Result<AccountingRequestModel, CodecError> {
    if b.len() < 9 {
        Err(CodecError::ShortBuffer(Field::RequestBody))
    } else {
        match TacacsAccountingFlags::spec_from_bits(b[0]) {
            None => Err(CodecError::InvalidFlags(Field::AccountingFlags)),
            Some(flags) => match TacacsAuthenticationMethod::spec_from_u8(b[1]) {
                None => Err(CodecError::InvalidEnum(Field::AuthenMethod)),
                Some(authen_method) => match TacacsAuthenticationType::spec_from_u8(b[3]) {
                    None => Err(CodecError::InvalidEnum(Field::AuthenType)),
                    Some(authen_type) => match TacacsAuthenticationService::spec_from_u8(b[4]) {
                        None => Err(CodecError::InvalidEnum(Field::AuthenService)),
                        Some(authen_service) => parse_request_strings(
                            b,
                            flags,
                            authen_method,
                            authen_type,
                            authen_service,
                        ),
                    },
                },
            },
        }
    }
}

/// The part of `parse_request` after the fixed fields.
pub open spec fn parse_request_strings(
    b: Seq<u8>,
    flags: TacacsAccountingFlags,
    authen_method: TacacsAuthenticationMethod,
    authen_type: TacacsAuthenticationType,
    authen_service: TacacsAuthenticationService,
) -> Result<AccountingRequestModel, CodecError>
    recommends
        b.len() >= 9,
{
    let n = b[8] as int;
    if b.len() < 9 + n {
        Err(CodecError::ShortBuffer(Field::ArgSize))
    } else {
        let o_user = 9 + n;
        let o_port = o_user + b[5];
        let o_rem = o_port + b[6];
        let o_args = o_rem + b[7];
        match parse_string(b, o_user, b[5] as int, Field::User) {
            Err(e) => Err(e),
            Ok(user) => match parse_string(b, o_port, b[6] as int, Field::Port) {
                Err(e) => Err(e),
                Ok(port) => match parse_string(b, o_rem, b[7] as int, Field::RemAddress) {
                    Err(e) => Err(e),
                    Ok(rem_address) => match parse_args(b, b.subrange(9, 9 + n), o_args) {
                        Err(e) => Err(e),
                        Ok(args) => Ok(
                            AccountingRequestModel {
                                flags,
                                authen_method,
                                priv_lvl: b[2],
                                authen_type,
                                authen_service,
                                user,
                                port,
                                rem_address,
                                args,
                            },
                        ),
                    },
                },
            },
        }
    }
}

/// What `from_packet` gives for a packet body `b`: `BodyTooShort` where the
/// length table can be read and the body is shorter than the lengths
/// declare; otherwise what `parse_request` gives.
pub open spec fn request_from_body(b: Seq<u8>) -> Result<AccountingRequestModel, CodecError> {
    if b.len() >= 9 && b.len() >= 9 + b[8] && b.len() < request_size(b) {
        Err(CodecError::BodyTooShort(Field::RequestBody))
    } else {
        parse_request(b)
    }
}

/// Once reading the first `k` arguments fails, reading them all fails the
/// same way.
proof fn lemma_parse_args_err_extends(b: Seq<u8>, lens: Seq<u8>, off: int, k: int)
    requires
        0 <= k <= lens.len(),
        parse_args(b, lens.take(k), off) is Err,
    ensures
        parse_args(b, lens, off) == parse_args(b, lens.take(k), off),
    decreases lens.len(),
{
    if k == lens.len() {
        assert(lens.take(k) =~= lens);
    } else {
        assert(lens.drop_last().take(k) =~= lens.take(k));
        lemma_parse_args_err_extends(b, lens.drop_last(), off, k);
    }
}

/// The lengths in the table add up to the length of the arguments' bytes.
proof fn lemma_sum_arg_lens(args: Seq<Seq<char>>, k: int)
    requires
        0 <= k <= args.len(),
        forall|i: int| 0 <= i < args.len() ==> utf8_of(#[trigger] args[i]).len() <= 255,
    ensures
        sum_lens(arg_lens(args).take(k)) == arg_bytes(args.take(k)).len(),
    decreases k,
{
    if k > 0 {
        assert(arg_lens(args).take(k).drop_last() =~= arg_lens(args).take(k - 1));
        assert(args.take(k).drop_last() =~= args.take(k - 1));
        lemma_sum_arg_lens(args, k - 1);
    } else {
        assert(args.take(0) =~= Seq::<Seq<char>>::empty());
        assert(arg_lens(args).take(0) =~= Seq::<u8>::empty());
    }
}

/// The bytes of the first `k` arguments start the bytes of the first `m`.
proof fn lemma_arg_bytes_prefix(args: Seq<Seq<char>>, k: int, m: int)
    requires
        0 <= k <= m <= args.len(),
    ensures
        arg_bytes(args.take(k)).len() <= arg_bytes(args.take(m)).len(),
        arg_bytes(args.take(m)).subrange(0, arg_bytes(args.take(k)).len() as int) == arg_bytes(
            args.take(k),
        ),
    decreases m - k,
{
    if k == m {
        assert(arg_bytes(args.take(m)).subrange(0, arg_bytes(args.take(k)).len() as int)
            =~= arg_bytes(args.take(k)));
    } else {
        lemma_arg_bytes_prefix(args, k, m - 1);
        assert(args.take(m).drop_last() =~= args.take(m - 1));
        assert(arg_bytes(args.take(m)).subrange(0, arg_bytes(args.take(k)).len() as int)
            =~= arg_bytes(args.take(k)));
    }
}

/// Reading the arguments back from their bytes gives the arguments.
proof fn lemma_parse_args_round_trip(b: Seq<u8>, args: Seq<Seq<char>>, off: int, k: int)
    requires
        0 <= k <= args.len(),
        0 <= off,
        off + arg_bytes(args).len() <= b.len(),
        b.subrange(off, off + arg_bytes(args).len()) == arg_bytes(args),
        forall|i: int| 0 <= i < args.len() ==> utf8_of(#[trigger] args[i]).len() <= 255,
    ensures
        parse_args(b, arg_lens(args).take(k), off) == Ok::<Seq<Seq<char>>, CodecError>(
            args.take(k),
        ),
    decreases k,
{
    if k == 0 {
        assert(arg_lens(args).take(0) =~= Seq::<u8>::empty());
        assert(args.take(0) =~= Seq::<Seq<char>>::empty());
    } else {
        lemma_parse_args_round_trip(b, args, off, k - 1);
        assert(arg_lens(args).take(k).drop_last() =~= arg_lens(args).take(k - 1));
        lemma_sum_arg_lens(args, k - 1);
        lemma_arg_bytes_prefix(args, k, args.len() as int);
        assert(args.take(args.len() as int) =~= args);
        assert(args.take(k).drop_last() =~= args.take(k - 1));
        let a = arg_bytes(args.take(k - 1)).len() as int;
        let s = utf8_of(args[k - 1]);
        let st = off + a;
        assert(arg_bytes(args.take(k)) == arg_bytes(args.take(k - 1)) + s);
        assert(arg_bytes(args.take(args.len() as int)) == arg_bytes(args));
        assert(a + s.len() <= arg_bytes(args).len());
        assert forall|j: int| 0 <= j < s.len() implies #[trigger] b.subrange(st, st + s.len())[j]
            == s[j] by {
            assert(b[st + j] == b.subrange(off, off + arg_bytes(args).len())[a + j]);
            assert(arg_bytes(args)[a + j] == arg_bytes(args).subrange(
                0,
                arg_bytes(args.take(k)).len() as int,
            )[a + j]);
        }
        assert(b.subrange(st, st + s.len()) =~= s);
        encode_utf8_valid_utf8(args[k - 1]);
        encode_utf8_decode_utf8(args[k - 1]);
        assert(args.take(k) =~= args.take(k - 1).push(args[k - 1]));
    }
}

/// Decoding the bytes of a legal request gives the request back.
pub proof fn lemma_request_round_trip(r: AccountingRequestModel)
    requires
        request_legal(r),
    ensures
        parse_request(request_bytes(r)) == Ok::<AccountingRequestModel, CodecError>(r),
{
    let b = request_bytes(r);
    let n = r.args.len() as int;
    let ub = utf8_of(r.user);
    let pb = utf8_of(r.port);
    let rb = utf8_of(r.rem_address);
    let ab = arg_bytes(r.args);
    r.flags.lemma_from_to();
    r.authen_method.lemma_from_to();
    r.authen_type.lemma_from_to();
    r.authen_service.lemma_from_to();
    assert(b.len() == 9 + n + ub.len() + pb.len() + rb.len() + ab.len());
    assert(b.subrange(9, 9 + n) =~= arg_lens(r.args));
    let o_user = 9 + n;
    let o_port = o_user + ub.len();
    let o_rem = o_port + pb.len();
    let o_args = o_rem + rb.len();
    assert(b.subrange(o_user, o_port) =~= ub);
    assert(b.subrange(o_port, o_rem) =~= pb);
    assert(b.subrange(o_rem, o_args) =~= rb);
    assert(b.subrange(o_args, o_args + ab.len()) =~= ab);
    encode_utf8_valid_utf8(r.user);
    encode_utf8_decode_utf8(r.user);
    encode_utf8_valid_utf8(r.port);
    encode_utf8_decode_utf8(r.port);
    encode_utf8_valid_utf8(r.rem_address);
    encode_utf8_decode_utf8(r.rem_address);
    lemma_parse_args_round_trip(b, r.args, o_args, n);
    assert(arg_lens(r.args).take(n) =~= arg_lens(r.args));
    assert(r.args.take(n) =~= r.args);
}

/// A legal request's body is at most `9 + 255 + 3·255 + 255·255` bytes.
pub proof fn lemma_request_size_bound(r: AccountingRequestModel)
    requires
        request_legal(r),
    ensures
        request_bytes(r).len() <= 9 + 255 + 3 * 255 + 255 * 255,
{
    lemma_arg_bytes_bound(r.args, r.args.len() as int);
    assert(r.args.take(r.args.len() as int) =~= r.args);
}

proof fn lemma_arg_bytes_bound(args: Seq<Seq<char>>, k: int)
    requires
        0 <= k <= args.len(),
        forall|i: int| 0 <= i < args.len() ==> utf8_of(#[trigger] args[i]).len() <= 255,
    ensures
        arg_bytes(args.take(k)).len() <= 255 * k,
    decreases k,
{
    if k > 0 {
        assert(args.take(k).drop_last() =~= args.take(k - 1));
        lemma_arg_bytes_bound(args, k - 1);
    }
}

impl AccountingRequest {
    /// Reads a UTF-8 string of `len` bytes from `cursor`, as
    /// `bytes::read_string` does.
    pub fn read_string(cursor: &mut ByteCursor, len: usize) -> (r: Result<String, ReadError>)
        requires
            old(cursor).wf(),
        ensures
            read_string_post(*old(cursor), *final(cursor), len as int, r),
    {
        read_string(cursor, len)
    }

    /// Whether the request can be written on the wire.
    pub fn is_legal(&self) -> (r: bool)
        ensures
            r == request_legal(self@),
    {
        if utf8_len(&self.user) > 255 || utf8_len(&self.port) > 255 || utf8_len(&self.rem_address)
            > 255 || self.args.len() > 255 {
            return false;
        }
        let mut i: usize = 0;
        while i < self.args.len()
            invariant
                0 <= i <= self.args@.len(),
                forall|j: int| 0 <= j < i ==> utf8_of(#[trigger] self@.args[j]).len() <= 255,
            decreases self.args@.len() - i,
        {
            if utf8_len(&self.args[i]) > 255 {
                assert(self@.args[i as int] == self.args@[i as int]@);
                return false;
            }
            i = i + 1;
        }
        true
    }

    /// The body on the wire: the fixed fields, the length table, then the
    /// strings in the order user, port, remote address, arguments.
    pub fn to_bytes(&self) -> (r: Vec<u8>)
        requires
            request_legal(self@),
        ensures
            r@ == request_bytes(self@),
    {
        let ghost m = self@;
        let mut data: Vec<u8> = Vec::new();
        data.push(self.flags.bits());
        data.push(self.authen_method.to_u8());
        data.push(self.priv_lvl);
        data.push(self.authen_type.to_u8());
        data.push(self.authen_service.to_u8());
        data.push(utf8_len(&self.user) as u8);
        data.push(utf8_len(&self.port) as u8);
        data.push(utf8_len(&self.rem_address) as u8);
        data.push(self.args.len() as u8);
        let ghost fixed = data@;
        let mut i: usize = 0;
        while i < self.args.len()
            invariant
                0 <= i <= self.args@.len(),
                m == self@,
                data@ == fixed + arg_lens(m.args).take(i as int),
            decreases self.args@.len() - i,
        {
            assert(m.args[i as int] == self.args@[i as int]@);
            data.push(utf8_len(&self.args[i]) as u8);
            i = i + 1;
            assert(data@ =~= fixed + arg_lens(m.args).take(i as int));
        }
        assert(arg_lens(m.args).take(i as int) =~= arg_lens(m.args));
        push_str_bytes(&mut data, &self.user);
        push_str_bytes(&mut data, &self.port);
        push_str_bytes(&mut data, &self.rem_address);
        let ghost strings = data@;
        let mut k: usize = 0;
        assert(m.args.take(0) =~= Seq::<Seq<char>>::empty());
        assert(strings =~= strings + arg_bytes(m.args.take(0)));
        while k < self.args.len()
            invariant
                0 <= k <= self.args@.len(),
                m == self@,
                data@ == strings + arg_bytes(m.args.take(k as int)),
            decreases self.args@.len() - k,
        {
            assert(m.args[k as int] == self.args@[k as int]@);
            push_str_bytes(&mut data, &self.args[k]);
            k = k + 1;
            assert(m.args.take(k as int).drop_last() =~= m.args.take(k - 1 as int));
            assert(data@ =~= strings + arg_bytes(m.args.take(k as int)));
        }
        assert(m.args.take(k as int) =~= m.args);
        assert(data@ =~= request_bytes(m));
        data
    }

    /// The body length that the length fields of `data` declare:
    /// `9 + arg_cnt + user_len + port_len + rem_addr_len + Σ arg_i_len`.
    pub fn size_from_bytes(data: &[u8]) -> (r: usize)
        requires
            data@.len() >= 9,
            data@.len() >= 9 + data@[8],
        ensures
            r as int == request_size(data@),
    {
        let n = data[8] as usize;
        let mut length: usize = TACACS_ACCOUNTING_REQUEST_MIN_LENGTH + n;
        length = length + data[5] as usize + data[6] as usize + data[7] as usize;
        let ghost lens = data@.subrange(9, 9 + n);
        let mut i: usize = 0;
        while i < n
            invariant
                0 <= i <= n,
                n == data@[8],
                data@.len() >= 9 + n,
                lens == data@.subrange(9, 9 + n),
                length as int == 9 + n + data@[5] + data@[6] + data@[7] + sum_lens(lens.take(i as int)),
                length <= 9 + 255 * 4 + 255 * i,
            decreases n - i,
        {
            assert(lens.take(i + 1 as int).drop_last() =~= lens.take(i as int));
            length = length + data[TACACS_ACCOUNTING_ARG_SIZE_OFFSET + i] as usize;
            i = i + 1;
        }
        assert(lens.take(n as int) =~= lens);
        length
    }

    /// Decodes a request body. Fails with `ShortBuffer` on fewer than 9
    /// bytes, `InvalidFlags` or `InvalidEnum` on a fixed field outside its
    /// range, `ShortBuffer` where the length table or a string runs past the
    /// end, and `InvalidUtf8` on a string that is not UTF-8; the first
    /// failing check in wire order decides.
    pub fn from_bytes(data: &[u8]) -> (r: Result<Self, CodecError>)
        ensures
            match parse_request(data@) {
                Ok(m) => r matches Ok(q) && q@ == m,
                Err(e) => r matches Err(x) && x == e,
            },
    {
        if data.len() < TACACS_ACCOUNTING_REQUEST_MIN_LENGTH {
            return Err(CodecError::ShortBuffer(Field::RequestBody));
        }
        let flags = match TacacsAccountingFlags::from_bits(data[0]) {
            Some(f) => f,
            None => return Err(CodecError::InvalidFlags(Field::AccountingFlags)),
        };
        let authen_method = match TacacsAuthenticationMethod::from_u8(data[1]) {
            Some(v) => v,
            None => return Err(CodecError::InvalidEnum(Field::AuthenMethod)),
        };
        let priv_lvl = data[2];
        let authen_type = match TacacsAuthenticationType::from_u8(data[3]) {
            Some(v) => v,
            None => return Err(CodecError::InvalidEnum(Field::AuthenType)),
        };
        let authen_service = match TacacsAuthenticationService::from_u8(data[4]) {
            Some(v) => v,
            None => return Err(CodecError::InvalidEnum(Field::AuthenService)),
        };
        let user_len = data[5] as usize;
        let port_len = data[6] as usize;
        let rem_addr_len = data[7] as usize;
        let arg_cnt = data[8] as usize;
        if data.len() - TACACS_ACCOUNTING_ARG_SIZE_OFFSET < arg_cnt {
            return Err(CodecError::ShortBuffer(Field::ArgSize));
        }
        let ghost b = data@;
        let ghost lens = b.subrange(9, 9 + arg_cnt);
        let mut cursor = ByteCursor::new(data);
        let mut arg_sizes: Vec<u8> = Vec::new();
        let mut i: usize = 0;
        while i < arg_cnt
            invariant
                0 <= i <= arg_cnt,
                arg_cnt <= 255,
                b.len() >= 9 + arg_cnt,
                b == data@,
                cursor.wf(),
                cursor.data() == b,
                arg_sizes@ == lens.take(i as int),
                lens == b.subrange(9, 9 + arg_cnt),
            decreases arg_cnt - i,
        {
            arg_sizes.push(data[TACACS_ACCOUNTING_ARG_SIZE_OFFSET + i]);
            i = i + 1;
            assert(arg_sizes@ =~= lens.take(i as int));
        }
        assert(arg_sizes@ =~= lens);
        // The strings start after the fixed fields and the length table.
        let _ = cursor.read_bytes(TACACS_ACCOUNTING_ARG_SIZE_OFFSET + arg_cnt);
        let user = match read_string(&mut cursor, user_len) {
            Ok(s) => s,
            Err(e) => return Err(CodecError::from_read(e, Field::User)),
        };
        let port = match read_string(&mut cursor, port_len) {
            Ok(s) => s,
            Err(e) => return Err(CodecError::from_read(e, Field::Port)),
        };
        let rem_address = match read_string(&mut cursor, rem_addr_len) {
            Ok(s) => s,
            Err(e) => return Err(CodecError::from_read(e, Field::RemAddress)),
        };
        let ghost o_args = cursor.pos();
        let mut args: Vec<String> = Vec::new();
        assert(lens.take(0) =~= Seq::<u8>::empty());
        assert(strings_view(args@) =~= Seq::<Seq<char>>::empty());
        assert(forall|e: CodecError|
            parse_args(b, lens, o_args) == Err::<Seq<Seq<char>>, CodecError>(e) ==> parse_request(b)
                == Err::<AccountingRequestModel, CodecError>(e));
        let mut k: usize = 0;
        while k < arg_cnt
            invariant
                0 <= k <= arg_cnt,
                b == data@,
                args@.len() == k,
                forall|e: CodecError|
                    parse_args(b, lens, o_args) == Err::<Seq<Seq<char>>, CodecError>(e)
                        ==> parse_request(b) == Err::<AccountingRequestModel, CodecError>(e),
                arg_sizes@ == lens,
                lens.len() == arg_cnt,
                cursor.wf(),
                cursor.data() == b,
                cursor.pos() == o_args + sum_lens(lens.take(k as int)),
                parse_args(b, lens.take(k as int), o_args) == Ok::<Seq<Seq<char>>, CodecError>(
                    strings_view(args@),
                ),
            decreases arg_cnt - k,
        {
            let ghost prev = strings_view(args@);
            assert(lens.take(k + 1 as int).drop_last() =~= lens.take(k as int));
            assert(lens.take(k + 1 as int).last() == lens[k as int]);
            match read_string(&mut cursor, arg_sizes[k] as usize) {
                Ok(s) => {
                    args.push(s);
                    k = k + 1;
                    assert(strings_view(args@) =~= prev.push(args@[k - 1 as int]@));
                },
                Err(e) => {
                    let err = CodecError::from_read(e, Field::Arg);
                    proof {
                        assert(parse_args(b, lens.take(k + 1 as int), o_args) == Err::<
                            Seq<Seq<char>>,
                            CodecError,
                        >(err));
                        lemma_parse_args_err_extends(b, lens, o_args, k + 1);
                    }
                    return Err(err);
                },
            }
        }
        assert(lens.take(arg_cnt as int) =~= lens);
        Ok(
            AccountingRequest {
                flags,
                authen_method,
                priv_lvl,
                authen_type,
                authen_service,
                user,
                port,
                rem_address,
                args,
            },
        )
    }

    /// Decodes the body of `packet`. Fails with `BodyTooShort` where the
    /// length table can be read and the body is shorter than the lengths
    /// declare; otherwise as `from_bytes`.
    pub fn from_packet(packet: &Packet) -> (r: Result<Self, CodecError>)
        ensures
            match request_from_body(packet.spec_body()) {
                Ok(m) => r matches Ok(q) && q@ == m,
                Err(e) => r matches Err(x) && x == e,
            },
    {
        let body = packet.body().as_slice();
        if body.len() >= TACACS_ACCOUNTING_REQUEST_MIN_LENGTH && body.len()
            - TACACS_ACCOUNTING_ARG_SIZE_OFFSET >= body[8] as usize {
            let expected_length = Self::size_from_bytes(body);
            if body.len() < expected_length {
                return Err(CodecError::BodyTooShort(Field::RequestBody));
            }
        }
        Self::from_bytes(body)
    }
}

} // verus!
