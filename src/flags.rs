//! The two bit sets of the protocol: the header flags and the accounting
//! request flags. Each is held as one boolean per recognised bit, so a value
//! of these types can never carry an unknown bit.

use vstd::prelude::*;

verus! {

/// A header flag byte is legal when it holds no bit but `UNENCRYPTED` (0x01)
/// and `SINGLE_CONNECT` (0x04).
pub open spec fn header_flag_byte_valid(b: u8) -> bool {
    b == 0 || b == 1 || b == 4 || b == 5
}

/// The flags of a packet header.
#[derive(Debug, Clone, Copy, PartialEq, Eq, Structural)]
pub struct TacacsFlags {
    pub unencrypted: bool,
    pub single_connect: bool,
}

impl TacacsFlags {
    pub open spec fn spec_bits(self) -> u8 {
        ((if self.unencrypted { 1u8 } else { 0u8 }) + (if self.single_connect { 4u8 } else { 0u8 })) as u8
    }

    pub open spec fn spec_from_bits(b: u8) -> Option<Self> {
        if header_flag_byte_valid(b) {
            Some(TacacsFlags { unencrypted: b == 1 || b == 5, single_connect: b == 4 || b == 5 })
        } else {
            None
        }
    }

    /// Decoding the byte of a flag set gives the flag set back.
    pub proof fn lemma_from_to(self)
        ensures
            Self::spec_from_bits(self.spec_bits()) == Some(self),
    {
    }

    /// No flag set.
    pub fn empty() -> (r: Self)
        ensures
            !r.unencrypted && !r.single_connect,
    {
        TacacsFlags { unencrypted: false, single_connect: false }
    }

    /// Only `UNENCRYPTED` set: the body is in clear text.
    pub fn unencrypted_flag() -> (r: Self)
        ensures
            r.unencrypted && !r.single_connect,
    {
        TacacsFlags { unencrypted: true, single_connect: false }
    }

    /// Only `SINGLE_CONNECT` set.
    pub fn single_connect_flag() -> (r: Self)
        ensures
            !r.unencrypted && r.single_connect,
    {
        TacacsFlags { unencrypted: false, single_connect: true }
    }

    /// The flag byte on the wire.
    pub fn bits(&self) -> (r: u8)
        ensures
            r == self.spec_bits(),
    {
        let u: u8 = if self.unencrypted { 1 } else { 0 };
        let s: u8 = if self.single_connect { 4 } else { 0 };
        u + s
    }

    /// The flag set of byte `b`, or `None` where `b` holds an unknown bit.
    pub fn from_bits(b: u8) -> (r: Option<Self>)
        ensures
            r == Self::spec_from_bits(b),
    {
        if b == 0 || b == 1 || b == 4 || b == 5 {
            Some(TacacsFlags { unencrypted: b == 1 || b == 5, single_connect: b == 4 || b == 5 })
        } else {
            None
        }
    }

    /// Whether every flag of `other` is set in `self`.
    pub fn contains(&self, other: &Self) -> (r: bool)
        ensures
            r == ((other.unencrypted ==> self.unencrypted) && (other.single_connect
                ==> self.single_connect)),
    {
        (!other.unencrypted || self.unencrypted) && (!other.single_connect || self.single_connect)
    }

    /// Sets every flag of `other`.
    pub fn insert(&mut self, other: &Self)
        ensures
            final(self).unencrypted == (old(self).unencrypted || other.unencrypted),
            final(self).single_connect == (old(self).single_connect || other.single_connect),
    {
        self.unencrypted = self.unencrypted || other.unencrypted;
        self.single_connect = self.single_connect || other.single_connect;
    }

    /// Clears every flag of `other`.
    pub fn remove(&mut self, other: &Self)
        ensures
            final(self).unencrypted == (old(self).unencrypted && !other.unencrypted),
            final(self).single_connect == (old(self).single_connect && !other.single_connect),
    {
        self.unencrypted = self.unencrypted && !other.unencrypted;
        self.single_connect = self.single_connect && !other.single_connect;
    }
}

/// An accounting flag byte is legal when it holds no bit but `START` (0x02),
/// `STOP` (0x04) and `WATCHDOG` (0x08).
pub open spec fn accounting_flag_byte_valid(b: u8) -> bool {
    b < 16 && b % 2 == 0
}

/// The flags of an accounting request.
#[derive(Debug, Clone, Copy, PartialEq, Eq, Structural)]
pub struct TacacsAccountingFlags {
    pub start: bool,
    pub stop: bool,
    pub watchdog: bool,
}

impl TacacsAccountingFlags {
    pub open spec fn spec_bits(self) -> u8 {
        ((if self.start { 2u8 } else { 0u8 }) + (if self.stop { 4u8 } else { 0u8 }) + (if self.watchdog { 8u8 } else { 0u8 })) as u8
    }

    pub open spec fn spec_from_bits(b: u8) -> Option<Self> {
        if accounting_flag_byte_valid(b) {
            Some(
                TacacsAccountingFlags {
                    start: (b / 2) % 2 == 1,
                    stop: (b / 4) % 2 == 1,
                    watchdog: (b / 8) % 2 == 1,
                },
            )
        } else {
            None
        }
    }

    /// Decoding the byte of a flag set gives the flag set back.
    pub proof fn lemma_from_to(self)
        ensures
            Self::spec_from_bits(self.spec_bits()) == Some(self),
    {
    }

    /// No flag set.
    pub fn empty() -> (r: Self)
        ensures
            !r.start && !r.stop && !r.watchdog,
    {
        TacacsAccountingFlags { start: false, stop: false, watchdog: false }
    }

    /// Only `START` set.
    pub fn start_flag() -> (r: Self)
        ensures
            r.start && !r.stop && !r.watchdog,
    {
        TacacsAccountingFlags { start: true, stop: false, watchdog: false }
    }

    /// Only `STOP` set.
    pub fn stop_flag() -> (r: Self)
        ensures
            !r.start && r.stop && !r.watchdog,
    {
        TacacsAccountingFlags { start: false, stop: true, watchdog: false }
    }

    /// Only `WATCHDOG` set.
    pub fn watchdog_flag() -> (r: Self)
        ensures
            !r.start && !r.stop && r.watchdog,
    {
        TacacsAccountingFlags { start: false, stop: false, watchdog: true }
    }

    /// The flags set in `self` or in `other`.
    pub fn union(&self, other: &Self) -> (r: Self)
        ensures
            r.start == (self.start || other.start),
            r.stop == (self.stop || other.stop),
            r.watchdog == (self.watchdog || other.watchdog),
    {
        TacacsAccountingFlags {
            start: self.start || other.start,
            stop: self.stop || other.stop,
            watchdog: self.watchdog || other.watchdog,
        }
    }

    /// The flag byte on the wire.
    pub fn bits(&self) -> (r: u8)
        ensures
            r == self.spec_bits(),
    {
        let a: u8 = if self.start { 2 } else { 0 };
        let b: u8 = if self.stop { 4 } else { 0 };
        let c: u8 = if self.watchdog { 8 } else { 0 };
        a + b + c
    }

    /// The flag set of byte `b`, or `None` where `b` holds an unknown bit.
    pub fn from_bits(b: u8) -> (r: Option<Self>)
        ensures
            r == Self::spec_from_bits(b),
    {
        if b < 16 && b % 2 == 0 {
            Some(
                TacacsAccountingFlags {
                    start: (b / 2) % 2 == 1,
                    stop: (b / 4) % 2 == 1,
                    watchdog: (b / 8) % 2 == 1,
                },
            )
        } else {
            None
        }
    }
}

} // verus!
