//! Numbers that are never zero: packet identifiers, topic filter counts, and
//! the packet size a client declares it can receive.

use vstd::prelude::*;

verus! {

/// An MQTT packet identifier. Zero is not an identifier.
#[derive(Debug, Clone, Copy, PartialEq, Eq, Structural)]
pub struct PacketId {
    value: u16,
}

impl View for PacketId {
    type V = u16;

    closed spec fn view(&self) -> u16 {
        self.value
    }
}

impl PacketId {
    #[verifier::type_invariant]
    spec fn is_identifier(self) -> bool {
        self.value != 0
    }

    /// The identifier `value`, or `None` for zero.
    pub fn new(value: u16) -> (r: Option<PacketId>)
        ensures
            r is Some <==> value != 0,
            r matches Some(id) ==> id@ == value,
    {
        if value == 0 {
            None
        } else {
            Some(PacketId { value })
        }
    }

    /// The identifier as a number.
    pub fn get(self) -> (r: u16)
        ensures
            r == self@,
            r != 0,
    {
        proof {
            use_type_invariant(self);
        }
        self.value
    }
}

/// How many topic filters a request named. At least one.
#[derive(Debug, Clone, Copy, PartialEq, Eq, Structural)]
pub struct FilterCount {
    value: usize,
}

impl View for FilterCount {
    type V = usize;

    closed spec fn view(&self) -> usize {
        self.value
    }
}

impl FilterCount {
    #[verifier::type_invariant]
    spec fn is_count(self) -> bool {
        self.value != 0
    }

    /// The count `value`, or `None` for zero.
    pub fn new(value: usize) -> (r: Option<FilterCount>)
        ensures
            r is Some <==> value != 0,
            r matches Some(n) ==> n@ == value,
    {
        if value == 0 {
            None
        } else {
            Some(FilterCount { value })
        }
    }

    /// The count as a number.
    pub fn get(self) -> (r: usize)
        ensures
            r == self@,
            r != 0,
    {
        proof {
            use_type_invariant(self);
        }
        self.value
    }
}

/// The largest packet, in bytes, that a client declared it can receive.
#[derive(Debug, Clone, Copy, PartialEq, Eq, Structural)]
pub struct PacketLimit {
    value: u32,
}

impl View for PacketLimit {
    type V = u32;

    closed spec fn view(&self) -> u32 {
        self.value
    }
}

impl PacketLimit {
    #[verifier::type_invariant]
    spec fn is_limit(self) -> bool {
        self.value != 0
    }

    /// The limit `value`, or `None` for zero.
    pub fn new(value: u32) -> (r: Option<PacketLimit>)
        ensures
            r is Some <==> value != 0,
            r matches Some(limit) ==> limit@ == value,
    {
        if value == 0 {
            None
        } else {
            Some(PacketLimit { value })
        }
    }

    /// The limit as a number of bytes.
    pub fn get(self) -> (r: u32)
        ensures
            r == self@,
            r != 0,
    {
        proof {
            use_type_invariant(self);
        }
        self.value
    }
}

} // verus!
