//! The accounting reply body.
//!
//! ```text
//! server_msg_len (2, big-endian) | data_len (2, big-endian) | status |
//! server_msg | data
//! ```

use vstd::prelude::*;
use vstd::utf8::*;
use crate::bytes::{
    be16, be16_bytes, lemma_be16_round_trip, parse_string, push_str_bytes, read_string, utf8_len, utf8_of,
    ByteCursor,
};
use crate::enumerations::TacacsAccountingStatus;
use crate::error::{CodecError, Field};
use crate::packet::{Packet, PacketTrait};

verus! {

broadcast use vstd::string::group_string_axioms;

/// The length of the fixed part of a reply body.
pub const TACACS_ACCOUNTING_REPLY_MIN_LENGTH: usize = 5;

/// An accounting reply.
#[derive(Debug)]
pub struct AccountingReply {
    pub status: TacacsAccountingStatus,
    pub server_msg: String,
    pub data: String,
}

/// The mathematical value of an accounting reply.
pub struct AccountingReplyModel {
    pub status: TacacsAccountingStatus,
    pub server_msg: Seq<char>,
    pub data: Seq<char>,
}

impl View for AccountingReply {
    type V = AccountingReplyModel;

    open spec fn view(&self) -> AccountingReplyModel {
        AccountingReplyModel { status: self.status, server_msg: self.server_msg@, data: self.data@ }
    }
}

/// A reply can be written on the wire: each string fits a two-byte length.
pub open spec fn reply_legal(r: AccountingReplyModel) -> bool {
    utf8_of(r.server_msg).len() <= 65535 && utf8_of(r.data).len() <= 65535
}

/// The bytes of a reply body on the wire.
pub open spec fn reply_bytes(r: AccountingReplyModel) -> Seq<u8> {
    be16_bytes(utf8_of(r.server_msg).len() as u16) + be16_bytes(utf8_of(r.data).len() as u16)
        + seq![r.status.spec_to_u8()] + utf8_of(r.server_msg) + utf8_of(r.data)
}

/// The body length that the length fields of `b` declare.
pub open spec fn reply_size(b: Seq<u8>) -> int
    recommends
        b.len() >= 4,
{
    5 + be16(b[0], b[1]) + be16(b[2], b[3])
}

/// What decoding `b` as a reply body gives. The checks run in wire order:
/// the two lengths, the status, then the two strings.
pub open spec fn parse_reply(b: Seq<u8>) -> Result<AccountingReplyModel, CodecError> {
    if b.len() < 2 {
        Err(CodecError::ShortBuffer(Field::ServerMsgLen))
    } else if b.len() < 4 {
        Err(CodecError::ShortBuffer(Field::DataLen))
    } else if b.len() < 5 {
        Err(CodecError::ShortBuffer(Field::Status))
    } else {
        let msg_len = be16(b[0], b[1]);
        let data_len = be16(b[2], b[3]);
        match TacacsAccountingStatus::spec_from_u8(b[4]) {
            None => Err(CodecError::InvalidEnum(Field::Status)),
            Some(status) => match parse_string(b, 5, msg_len, Field::ServerMsg) {
                Err(e) => Err(e),
                Ok(server_msg) => match parse_string(b, 5 + msg_len, data_len, Field::Data) {
                    Err(e) => Err(e),
                    Ok(data) => Ok(AccountingReplyModel { status, server_msg, data }),
                },
            },
        }
    }
}

/// What `from_packet` gives for a packet body `b`: the errors of reading
/// the two lengths, `BodyTooShort` where the body is shorter than they
/// declare, otherwise what `parse_reply` gives.
pub open spec fn reply_from_body(b: Seq<u8>) -> Result<AccountingReplyModel, CodecError> {
    if b.len() < 2 {
        Err(CodecError::ShortBuffer(Field::ServerMsgLen))
    } else if b.len() < 4 {
        Err(CodecError::ShortBuffer(Field::DataLen))
    } else if b.len() < reply_size(b) {
        Err(CodecError::BodyTooShort(Field::ReplyBody))
    } else {
        parse_reply(b)
    }
}

/// Decoding the bytes of a legal reply gives the reply back.
pub proof fn lemma_reply_round_trip(r: AccountingReplyModel)
    requires
        reply_legal(r),
    ensures
        parse_reply(reply_bytes(r)) == Ok::<AccountingReplyModel, CodecError>(r),
{
    let b = reply_bytes(r);
    let mb = utf8_of(r.server_msg);
    let db = utf8_of(r.data);
    let ml = mb.len() as int;
    let dl = db.len() as int;
    lemma_be16_round_trip(mb.len() as u16);
    lemma_be16_round_trip(db.len() as u16);
    r.status.lemma_from_to();
    assert(be16(b[0], b[1]) == mb.len());
    assert(be16(b[2], b[3]) == db.len());
    assert(b.subrange(5, 5 + ml) =~= mb);
    assert(b.subrange(5 + ml, 5 + ml + dl) =~= db);
    encode_utf8_valid_utf8(r.server_msg);
    encode_utf8_decode_utf8(r.server_msg);
    encode_utf8_valid_utf8(r.data);
    encode_utf8_decode_utf8(r.data);
}

impl AccountingReply {
    /// Whether the reply can be written on the wire.
    pub fn is_legal(&self) -> (r: bool)
        ensures
            r == reply_legal(self@),
    {
        utf8_len(&self.server_msg) <= 65535 && utf8_len(&self.data) <= 65535
    }

    /// The body length that the length fields of `data` declare; fails
    /// with `ShortBuffer` where a length field is cut off.
    pub fn size_from_bytes(data: &[u8]) -> (r: Result<usize, CodecError>)
        ensures
            data@.len() < 2 ==> r == Err::<usize, CodecError>(
                CodecError::ShortBuffer(Field::ServerMsgLen),
            ),
            2 <= data@.len() < 4 ==> r == Err::<usize, CodecError>(
                CodecError::ShortBuffer(Field::DataLen),
            ),
            data@.len() >= 4 ==> (r matches Ok(n) && n as int == reply_size(data@)),
    {
        let mut cursor = ByteCursor::new(data);
        let msg_len = match cursor.read_u16_be() {
            Some(v) => v as usize,
            None => return Err(CodecError::ShortBuffer(Field::ServerMsgLen)),
        };
        let data_len = match cursor.read_u16_be() {
            Some(v) => v as usize,
            None => return Err(CodecError::ShortBuffer(Field::DataLen)),
        };
        Ok(TACACS_ACCOUNTING_REPLY_MIN_LENGTH + msg_len + data_len)
    }

    /// Decodes a reply body. Fails with `ShortBuffer` where a field is cut
    /// off, `InvalidEnum` on an unknown status and `InvalidUtf8` on a
    /// string that is not UTF-8; the first failing check in wire order
    /// decides.
    pub fn from_bytes(bytes: &[u8]) -> (r: Result<Self, CodecError>)
        ensures
            match parse_reply(bytes@) {
                Ok(m) => r matches Ok(q) && q@ == m,
                Err(e) => r matches Err(x) && x == e,
            },
    {
        let mut cursor = ByteCursor::new(bytes);
        let msg_len = match cursor.read_u16_be() {
            Some(v) => v as usize,
            None => return Err(CodecError::ShortBuffer(Field::ServerMsgLen)),
        };
        let data_len = match cursor.read_u16_be() {
            Some(v) => v as usize,
            None => return Err(CodecError::ShortBuffer(Field::DataLen)),
        };
        let status = match cursor.read_u8() {
            Some(v) => match TacacsAccountingStatus::from_u8(v) {
                Some(s) => s,
                None => return Err(CodecError::InvalidEnum(Field::Status)),
            },
            None => return Err(CodecError::ShortBuffer(Field::Status)),
        };
        let server_msg = match read_string(&mut cursor, msg_len) {
            Ok(s) => s,
            Err(e) => return Err(CodecError::from_read(e, Field::ServerMsg)),
        };
        let data = match read_string(&mut cursor, data_len) {
            Ok(s) => s,
            Err(e) => return Err(CodecError::from_read(e, Field::Data)),
        };
        Ok(AccountingReply { status, server_msg, data })
    }

    /// Decodes the body of `packet`. Fails as `size_from_bytes` does, with
    /// `BodyTooShort` where the body is shorter than its lengths declare,
    /// and otherwise as `from_bytes`.
    pub fn from_packet(packet: &Packet) -> (r: Result<Self, CodecError>)
        ensures
            match reply_from_body(packet.spec_body()) {
                Ok(m) => r matches Ok(q) && q@ == m,
                Err(e) => r matches Err(x) && x == e,
            },
    {
        let body = packet.body().as_slice();
        let expected_length = match Self::size_from_bytes(body) {
            Ok(n) => n,
            Err(e) => return Err(e),
        };
        if body.len() < expected_length {
            return Err(CodecError::BodyTooShort(Field::ReplyBody));
        }
        Self::from_bytes(body)
    }

    /// The body on the wire: the two lengths, the status, the server
    /// message, then the data.
    pub fn to_bytes(&self) -> (r: Vec<u8>)
        requires
            reply_legal(self@),
        ensures
            r@ == reply_bytes(self@),
    {
        let msg_len = utf8_len(&self.server_msg) as u16;
        let data_len = utf8_len(&self.data) as u16;
        let mut bytes: Vec<u8> = Vec::new();
        bytes.push((msg_len / 256) as u8);
        bytes.push((msg_len % 256) as u8);
        bytes.push((data_len / 256) as u8);
        bytes.push((data_len % 256) as u8);
        bytes.push(self.status.to_u8());
        push_str_bytes(&mut bytes, &self.server_msg);
        push_str_bytes(&mut bytes, &self.data);
        assert(bytes@ =~= reply_bytes(self@));
        bytes
    }
}

} // verus!
