//! The routing table of a connection: which session id leads to which
//! inbound queue, and whether new sessions are still admitted.
//!
//! The manager is generic over the inbound handle `T`, so that it holds the
//! producer half of whatever queue the transport uses.

use vstd::prelude::*;
use std::collections::HashMap;
use crate::packet::{Packet, PacketTrait};
use crate::session::Session;

verus! {

broadcast use vstd::std_specs::hash::group_hash_axioms;

/// How many random ids are drawn before the manager falls back to probing
/// for a free one.
pub const RANDOM_ID_ATTEMPTS: usize = 64;

/// Why no session was created.
#[derive(Debug, Clone, Copy, PartialEq, Eq, Structural)]
pub enum AdmissionError {
    /// The manager no longer admits new sessions.
    Closed,
    /// The requested session id is already in use.
    IdInUse,
    /// Every session id is in use.
    Exhausted,
}

/// Relies on `rand::random::<u32>`: some `u32` drawn from the thread-local
/// generator. Nothing is known of which.
#[verifier::external_body]
fn random_session_id() -> (r: u32) {
    rand::random::<u32>()
}

/// The routing table of a connection and its admission flag.
pub struct SessionManager<T> {
    routes: HashMap<u32, T>,
    admitting: bool,
}

impl<T> SessionManager<T> {
    /// The inbound handle of each open session, by session id.
    pub closed spec fn routes(&self) -> Map<u32, T> {
        self.routes@
    }

    /// Whether new sessions are admitted.
    pub closed spec fn admitting(&self) -> bool {
        self.admitting
    }

    /// An empty table that admits new sessions.
    pub fn new() -> (r: Self)
        ensures
            r.routes() == Map::<u32, T>::empty(),
            r.admitting(),
    {
        SessionManager { routes: HashMap::new(), admitting: true }
    }

    /// Whether new sessions are admitted.
    pub fn can_create_sessions(&self) -> (r: bool)
        ensures
            r == self.admitting(),
    {
        self.admitting
    }

    /// Stops admitting new sessions, for good; open sessions stay.
    pub fn disable_new_sessions(&mut self)
        ensures
            !final(self).admitting(),
            final(self).routes() == old(self).routes(),
    {
        self.admitting = false;
    }

    /// Whether a session with id `session_id` is open.
    pub fn contains_session(&self, session_id: u32) -> (r: bool)
        ensures
            r == self.routes().contains_key(session_id),
    {
        self.routes.contains_key(&session_id)
    }

    /// The number of open sessions.
    pub fn session_count(&self) -> (r: usize)
        ensures
            r as int == self.routes().len(),
    {
        self.routes.len()
    }

    /// Opens a session with id `session_id` whose packets go to `inbound`.
    /// Fails with `Closed` once admission has stopped and with `IdInUse`
    /// where the id is taken; a failure changes nothing.
    pub fn register_session(&mut self, session_id: u32, inbound: T) -> (r: Result<
        Session,
        AdmissionError,
    >)
        ensures
            final(self).admitting() == old(self).admitting(),
            !old(self).admitting() ==> r == Err::<Session, AdmissionError>(AdmissionError::Closed)
                && final(self).routes() == old(self).routes(),
            old(self).admitting() && old(self).routes().contains_key(session_id) ==> r == Err::<
                Session,
                AdmissionError,
            >(AdmissionError::IdInUse) && final(self).routes() == old(self).routes(),
            old(self).admitting() && !old(self).routes().contains_key(session_id) ==> (r matches Ok(
                s,
            ) && s.spec_session_id() == session_id && s.packets_sent() == 0 && !s.spec_complete()
                && final(self).routes() == old(self).routes().insert(session_id, inbound)),
    {
        if !self.admitting {
            return Err(AdmissionError::Closed);
        }
        if self.routes.contains_key(&session_id) {
            return Err(AdmissionError::IdInUse);
        }
        self.routes.insert(session_id, inbound);
        Ok(Session::new(session_id))
    }

    /// Picks an id that no open session uses: random draws first, then, if
    /// they all collide, the next free id after the last draw. `None` only
    /// where every id is in use.
    fn free_session_id(&self) -> (r: Option<u32>)
        ensures
            r matches Some(id) ==> !self.routes().contains_key(id),
            r is None ==> forall|id: u32| #[trigger] self.routes().contains_key(id),
    {
        let mut attempts: usize = 0;
        let mut candidate: u32 = random_session_id();
        while attempts < RANDOM_ID_ATTEMPTS
            decreases RANDOM_ID_ATTEMPTS - attempts,
        {
            if !self.routes.contains_key(&candidate) {
                return Some(candidate);
            }
            candidate = random_session_id();
            attempts = attempts + 1;
        }
        let start = candidate;
        let mut offset: u64 = 0;
        while offset < 0x1_0000_0000
            invariant
                offset <= 0x1_0000_0000,
                forall|j: u64|
                    j < offset ==> self.routes().contains_key(
                        #[trigger] ((start as u64 + j) % 0x1_0000_0000) as u32,
                    ),
            decreases 0x1_0000_0000 - offset,
        {
            let id = ((start as u64 + offset) % 0x1_0000_0000) as u32;
            if !self.routes.contains_key(&id) {
                return Some(id);
            }
            offset = offset + 1;
        }
        assert forall|id: u32| #[trigger] self.routes().contains_key(id) by {
            let j: u64 = ((id as u64 + 0x1_0000_0000 - start as u64) % 0x1_0000_0000) as u64;
            assert(((start as u64 + j) % 0x1_0000_0000) as u32 == id);
        }
        None
    }

    /// Opens a session under a fresh random id whose packets go to
    /// `inbound`. Fails with `Closed` once admission has stopped, and with
    /// `Exhausted` only where every id is in use; a failure changes nothing.
    /// The new id is used by no session that was open before.
    pub fn create_session(&mut self, inbound: T) -> (r: Result<Session, AdmissionError>)
        ensures
            final(self).admitting() == old(self).admitting(),
            !old(self).admitting() ==> r == Err::<Session, AdmissionError>(AdmissionError::Closed),
            r is Err ==> final(self).routes() == old(self).routes(),
            r == Err::<Session, AdmissionError>(AdmissionError::Exhausted) ==> forall|id: u32|
                #[trigger] old(self).routes().contains_key(id),
            old(self).admitting() ==> (r is Ok || r == Err::<Session, AdmissionError>(
                AdmissionError::Exhausted,
            )),
            r matches Ok(s) ==> !old(self).routes().contains_key(s.spec_session_id())
                && final(self).routes() == old(self).routes().insert(s.spec_session_id(), inbound)
                && s.packets_sent() == 0 && !s.spec_complete(),
    {
        if !self.admitting {
            return Err(AdmissionError::Closed);
        }
        match self.free_session_id() {
            Some(id) => self.register_session(id, inbound),
            None => Err(AdmissionError::Exhausted),
        }
    }

    /// The inbound handle of the session that `packet` belongs to, by its
    /// header's session id; `None` where no open session has that id, and
    /// the packet is then to be dropped.
    pub fn route(&self, packet: &Packet) -> (r: Option<&T>)
        ensures
            match r {
                Some(t) => self.routes().contains_key(packet.spec_header().session_id)
                    && self.routes()[packet.spec_header().session_id] == *t,
                None => !self.routes().contains_key(packet.spec_header().session_id),
            },
    {
        self.routes.get(&packet.header().session_id)
    }

    /// Closes the route of session `session_id`, handing back its inbound
    /// handle; other sessions keep theirs.
    pub fn remove_session(&mut self, session_id: u32) -> (r: Option<T>)
        ensures
            final(self).admitting() == old(self).admitting(),
            final(self).routes() == old(self).routes().remove(session_id),
            match r {
                Some(t) => old(self).routes().contains_key(session_id) && old(self).routes()[session_id] == t,
                None => !old(self).routes().contains_key(session_id),
            },
    {
        self.routes.remove(&session_id)
    }

    /// Drops every route, which closes every session's inbound queue.
    pub fn shutdown(&mut self)
        ensures
            final(self).admitting() == old(self).admitting(),
            final(self).routes() == Map::<u32, T>::empty(),
    {
        self.routes.clear();
    }
}

} // verus!
