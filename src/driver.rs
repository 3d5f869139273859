//! The decisions of the connection driver. The driver's reader and writer
//! loops do the I/O; what they do with each packet, and what the supervisor
//! does when a loop ends, is decided here.

use vstd::prelude::*;
use crate::error::CodecError;
use crate::header::{header_bytes, Header};
use crate::obfuscation::{
    lemma_obfuscation_involution, lemma_pad_determined, obfuscate, obfuscation_pad,
};
use crate::packet::{with_unencrypted, Packet, PacketTrait};

verus! {

/// The header and body that go on the wire for a packet: obfuscated when a
/// key is configured and the packet is in clear text, as it is otherwise.
pub open spec fn outbound_form(h: Header, body: Seq<u8>, key: Option<Seq<u8>>) -> (Header, Seq<u8>) {
    match key {
        Some(k) => if h.flags.unencrypted {
            (with_unencrypted(h, false), obfuscate(h, k, body))
        } else {
            (h, body)
        },
        None => (h, body),
    }
}

/// The header and body that a received packet is handed on with:
/// deobfuscated when a key is configured and the packet is obfuscated, as
/// it came otherwise.
pub open spec fn inbound_form(h: Header, body: Seq<u8>, key: Option<Seq<u8>>) -> (Header, Seq<u8>) {
    match key {
        Some(k) => if !h.flags.unencrypted {
            (with_unencrypted(h, true), obfuscate(h, k, body))
        } else {
            (h, body)
        },
        None => (h, body),
    }
}

/// With the same key on both ends, what the reader hands on is what the
/// writer was given, for a packet sent in clear text.
pub proof fn lemma_wire_round_trip(h: Header, body: Seq<u8>, key: Option<Seq<u8>>)
    requires
        h.flags.unencrypted,
    ensures
        ({
            let (h2, b2) = outbound_form(h, body, key);
            inbound_form(h2, b2, key) == (h, body)
        }),
{
    if let Some(k) = key {
        let h2 = with_unencrypted(h, false);
        assert(obfuscation_pad(h2, k, body.len()) == obfuscation_pad(h, k, body.len())) by {
            lemma_pad_determined(h2, h, k, body.len());
        }
        lemma_obfuscation_involution(h, k, body);
        assert(with_unencrypted(h2, true) == h);
    }
}

/// The view of an optional key.
pub open spec fn key_view(key: Option<&[u8]>) -> Option<Seq<u8>> {
    match key {
        Some(k) => Some(k@),
        None => None,
    }
}

/// The bytes the writer sends for `packet`: its header and body after
/// obfuscation under `key` where that applies.
pub fn outbound_frame(packet: Packet, key: Option<&[u8]>) -> (r: Vec<u8>)
    ensures
        ({
            let (h, b) = outbound_form(packet.spec_header(), packet.spec_body(), key_view(key));
            r@ == header_bytes(h) + b
        }),
{
    let packet = match key {
        Some(k) => packet.to_obfuscated(k),
        None => packet,
    };
    packet.to_bytes()
}

/// The packet the reader hands on for a decoded header and the body bytes
/// read after it: deobfuscated under `key` where that applies. Fails with
/// `BodyTooShort` where fewer body bytes came than the header declares.
pub fn inbound_packet(header: Header, body: Vec<u8>, key: Option<&[u8]>) -> (r: Result<
    Packet,
    CodecError,
>)
    ensures
        body@.len() < header.length ==> r == Err::<Packet, CodecError>(
            CodecError::BodyTooShort(crate::error::Field::Packet),
        ),
        body@.len() >= header.length ==> (r matches Ok(p) && (p.spec_header(), p.spec_body())
            == inbound_form(header, body@, key_view(key))),
{
    let packet = match Packet::new(header, body) {
        Ok(p) => p,
        Err(e) => return Err(e),
    };
    match key {
        Some(k) => Ok(packet.to_deobfuscated(k)),
        None => Ok(packet),
    }
}

/// One of the driver's two loops.
#[derive(Debug, Clone, Copy, PartialEq, Eq, Structural)]
pub enum DriverTask {
    Reader,
    Writer,
}

/// What the supervisor does after a loop has ended.
#[derive(Debug, PartialEq, Eq)]
pub struct SupervisorAction {
    /// Stop admitting new sessions (set on the first exit).
    pub disable_new_sessions: bool,
    /// The driver's outcome, once both loops have ended: the first error
    /// that a loop reported, or `Ok`.
    pub finished: Option<Result<(), String>>,
}

/// The supervisor of the two loops: which have ended and the first error.
pub struct Supervisor {
    reader_done: bool,
    writer_done: bool,
    first_error: Option<String>,
}

impl Supervisor {
    pub closed spec fn reader_done(&self) -> bool {
        self.reader_done
    }

    pub closed spec fn writer_done(&self) -> bool {
        self.writer_done
    }

    /// The detail of the first error a loop reported, if any.
    pub closed spec fn first_error(&self) -> Option<Seq<char>> {
        match self.first_error {
            Some(e) => Some(e@),
            None => None,
        }
    }

    /// Both loops running, no error seen.
    pub fn new() -> (r: Self)
        ensures
            !r.reader_done() && !r.writer_done() && r.first_error() is None,
    {
        Supervisor { reader_done: false, writer_done: false, first_error: None }
    }

    /// Records that `task` ended with `outcome`. Admission stops at the
    /// first exit; once both loops have ended the outcome is the first
    /// error seen, or `Ok`.
    pub fn on_task_exit(&mut self, task: DriverTask, outcome: Result<(), String>) -> (r:
        SupervisorAction)
        requires
            task == DriverTask::Reader ==> !old(self).reader_done(),
            task == DriverTask::Writer ==> !old(self).writer_done(),
        ensures
            final(self).reader_done() == (old(self).reader_done() || task == DriverTask::Reader),
            final(self).writer_done() == (old(self).writer_done() || task == DriverTask::Writer),
            final(self).first_error() == match old(self).first_error() {
                Some(e) => Some(e),
                None => match outcome {
                    Err(d) => Some(d@),
                    Ok(_) => None::<Seq<char>>,
                },
            },
            r.disable_new_sessions == (!old(self).reader_done() && !old(self).writer_done()),
            (final(self).reader_done() && final(self).writer_done()) ==> (r.finished matches Some(
                res,
            ) && match final(self).first_error() {
                Some(e) => res matches Err(d) && d@ == e,
                None => res is Ok,
            }),
            !(final(self).reader_done() && final(self).writer_done()) ==> r.finished is None,
    {
        let first_exit = !self.reader_done && !self.writer_done;
        match task {
            DriverTask::Reader => self.reader_done = true,
            DriverTask::Writer => self.writer_done = true,
        }
        if self.first_error.is_none() {
            match outcome {
                Err(d) => self.first_error = Some(d),
                Ok(()) => {},
            }
        }
        let finished = if self.reader_done && self.writer_done {
            match &self.first_error {
                Some(e) => Some(Err(e.clone())),
                None => Some(Ok(())),
            }
        } else {
            None
        };
        SupervisorAction { disable_new_sessions: first_exit, finished }
    }
}

} // verus!
