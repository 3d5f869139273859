//! The client side of one session: sequence numbers, completion, and the
//! steps of an accounting exchange around the transport.

use vstd::prelude::*;
use crate::accounting_reply::{parse_reply, AccountingReply, AccountingReplyModel};
use crate::accounting_request::{request_bytes, request_legal, AccountingRequest};
use crate::enumerations::{TacacsMajorVersion, TacacsMinorVersion, TacacsType};
use crate::error::{CodecError, Field};
use crate::flags::TacacsFlags;
use crate::header::Header;
use crate::packet::{Packet, PacketTrait};

verus! {

/// The sequence number of the `n`-th packet a client sends (counting from
/// one): `2n − 1`, wrapping at 256.
pub open spec fn nth_seq_no(n: nat) -> u8 {
    ((2 * n - 1) % 256) as u8
}

/// Every sequence number a client sends is odd.
pub proof fn lemma_client_seq_no_odd(n: nat)
    requires
        n >= 1,
    ensures
        nth_seq_no(n) % 2 == 1,
{
}

/// Why an exchange on a session failed.
#[derive(Debug, Clone, Copy, PartialEq, Eq, Structural)]
pub enum SessionError {
    /// The session has completed and takes no further requests.
    SessionClosed,
    /// The connection is gone: the request could not be sent, or no reply
    /// will come.
    TransportClosed,
    /// The request could not be encoded, or the reply could not be decoded.
    Codec(CodecError),
}

/// The header of the `seq_no`-th accounting request of session `id` with a
/// body of `length` bytes.
pub open spec fn accounting_request_header(id: u32, seq_no: u8, length: u32) -> Header {
    Header {
        major_version: TacacsMajorVersion::TacacsPlusMajor1,
        minor_version: TacacsMinorVersion::TacacsPlusMinorVerDefault,
        tacacs_type: TacacsType::TacPlusAccounting,
        seq_no,
        flags: TacacsFlags { unencrypted: true, single_connect: false },
        session_id: id,
        length,
    }
}

/// One session as its client sees it.
pub struct Session {
    session_id: u32,
    next_seq: u8,
    complete: bool,
    sent: Ghost<nat>,
}

impl Session {
    #[verifier::type_invariant]
    spec fn next_seq_follows_count(&self) -> bool {
        self.next_seq == nth_seq_no(self.sent@ + 1)
    }

    pub closed spec fn spec_session_id(&self) -> u32 {
        self.session_id
    }

    /// Whether the session has completed.
    pub closed spec fn spec_complete(&self) -> bool {
        self.complete
    }

    /// How many packets the session has sent.
    pub closed spec fn packets_sent(&self) -> nat {
        self.sent@
    }

    /// A fresh session with id `session_id`: nothing sent, not complete.
    pub fn new(session_id: u32) -> (r: Self)
        ensures
            r.spec_session_id() == session_id,
            r.packets_sent() == 0,
            !r.spec_complete(),
    {
        Session { session_id, next_seq: 1, complete: false, sent: Ghost(0) }
    }

    /// The session's id.
    pub fn session_id(&self) -> (r: u32)
        ensures
            r == self.spec_session_id(),
    {
        self.session_id
    }

    /// Takes the sequence number for the next packet sent: the `n`-th call
    /// returns `2n − 1` (wrapping at 256).
    pub fn next_sequence_number(&mut self) -> (r: u8)
        ensures
            final(self).packets_sent() == old(self).packets_sent() + 1,
            r == nth_seq_no(final(self).packets_sent()),
            final(self).spec_session_id() == old(self).spec_session_id(),
            final(self).spec_complete() == old(self).spec_complete(),
    {
        proof {
            use_type_invariant(&*self);
        }
        let r = self.next_seq;
        let ghost n: nat = self.sent@ + 1;
        proof {
            assert((2 * (n + 1) - 1) % 256 == ((2 * n - 1) % 256 + 2) % 256) by (nonlinear_arith)
                requires
                    n >= 1,
            ;
        }
        *self = Session {
            session_id: self.session_id,
            next_seq: r.wrapping_add(2),
            complete: self.complete,
            sent: Ghost(n),
        };
        r
    }

    /// Marks the session complete.
    pub fn complete(&mut self)
        ensures
            final(self).spec_complete(),
            final(self).packets_sent() == old(self).packets_sent(),
            final(self).spec_session_id() == old(self).spec_session_id(),
    {
        proof {
            use_type_invariant(&*self);
        }
        *self = Session {
            session_id: self.session_id,
            next_seq: self.next_seq,
            complete: true,
            sent: Ghost(self.sent@),
        };
    }

    /// Whether the session has completed.
    pub fn is_complete(&self) -> (r: bool)
        ensures
            r == self.spec_complete(),
    {
        self.complete
    }

    /// The first step of an accounting exchange: the packet to send. Fails
    /// with `SessionClosed` on a completed session and with
    /// `Codec(TooLong(RequestBody))` where the request does not fit on the
    /// wire; neither failure changes the session. Otherwise the packet is
    /// the request's bytes under an accounting header in clear text, with
    /// the next sequence number.
    pub fn begin_accounting(&mut self, request: &AccountingRequest) -> (r: Result<
        Packet,
        SessionError,
    >)
        ensures
            final(self).spec_session_id() == old(self).spec_session_id(),
            final(self).spec_complete() == old(self).spec_complete(),
            old(self).spec_complete() ==> r == Err::<Packet, SessionError>(
                SessionError::SessionClosed,
            ) && final(self).packets_sent() == old(self).packets_sent(),
            !old(self).spec_complete() && !request_legal(request@) ==> r == Err::<
                Packet,
                SessionError,
            >(SessionError::Codec(CodecError::TooLong(Field::RequestBody)))
                && final(self).packets_sent() == old(self).packets_sent(),
            !old(self).spec_complete() && request_legal(request@) ==> (r matches Ok(p)
                && final(self).packets_sent() == old(self).packets_sent() + 1
                && p.spec_body() == request_bytes(request@)
                && p.spec_header() == accounting_request_header(
                old(self).spec_session_id(),
                nth_seq_no(final(self).packets_sent()),
                p.spec_body().len() as u32,
            )),
    {
        if self.complete {
            return Err(SessionError::SessionClosed);
        }
        if !request.is_legal() {
            return Err(SessionError::Codec(CodecError::TooLong(Field::RequestBody)));
        }
        let seq_no = self.next_sequence_number();
        let body = request.to_bytes();
        proof {
            crate::accounting_request::lemma_request_size_bound(request@);
        }
        let header = Header {
            major_version: TacacsMajorVersion::TacacsPlusMajor1,
            minor_version: TacacsMinorVersion::TacacsPlusMinorVerDefault,
            tacacs_type: TacacsType::TacPlusAccounting,
            seq_no,
            flags: TacacsFlags::unencrypted_flag(),
            session_id: self.session_id,
            length: body.len() as u32,
        };
        match Packet::new(header, body) {
            Ok(p) => Ok(p),
            Err(e) => Err(SessionError::Codec(e)),
        }
    }

    /// The last step of an accounting exchange, given what the inbound
    /// queue yielded. `None` (the queue closed) fails with
    /// `TransportClosed`; a body that does not decode fails with its codec
    /// error. Either failure leaves the session as it was. A reply that
    /// decodes completes the session and is returned.
    pub fn finish_accounting(&mut self, response: Option<Packet>) -> (r: Result<
        AccountingReply,
        SessionError,
    >)
        ensures
            final(self).spec_session_id() == old(self).spec_session_id(),
            final(self).packets_sent() == old(self).packets_sent(),
            match response {
                None => r == Err::<AccountingReply, SessionError>(SessionError::TransportClosed)
                    && final(self).spec_complete() == old(self).spec_complete(),
                Some(p) => match parse_reply(p.spec_body()) {
                    Ok(m) => (r matches Ok(q) && q@ == m) && final(self).spec_complete(),
                    Err(e) => r == Err::<AccountingReply, SessionError>(SessionError::Codec(e))
                        && final(self).spec_complete() == old(self).spec_complete(),
                },
            },
    {
        let packet = match response {
            Some(p) => p,
            None => return Err(SessionError::TransportClosed),
        };
        match AccountingReply::from_bytes(packet.body().as_slice()) {
            Ok(reply) => {
                self.complete();
                Ok(reply)
            },
            Err(e) => Err(SessionError::Codec(e)),
        }
    }
}

} // verus!
