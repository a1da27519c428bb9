//! Parameter stores that the miner is configured with.
//!
//! Each store starts at zero; `set` replaces the value it holds and `get`
//! reads it back.

use vstd::prelude::*;

use crate::chain::RuntimeDbWeight;

verus! {

/// The maximum length, in bytes, of a solution.
pub struct MaxLength {
    val: u32,
}

impl View for MaxLength {
    type V = u32;

    open spec fn view(&self) -> u32 {
        self.spec_value()
    }
}

impl MaxLength {
    /// The value held by the store.
    pub closed spec fn spec_value(&self) -> u32 {
        self.val
    }

    /// The store as it stands after `val` was written into it.
    pub closed spec fn spec_set(self, val: u32) -> Self {
        MaxLength { val }
    }

    /// A store holding zero.
    pub fn new() -> (s: Self)
        ensures
            s@ == 0,
    {
        MaxLength { val: 0 }
    }

    /// Reads the value held by the store.
    pub fn get(&self) -> (r: u32)
        ensures
            r == self@,
    {
        self.val
    }

    /// Writes `val` into the store.
    pub fn set(&mut self, val: u32)
        ensures
            *final(self) == old(self).spec_set(val),
            final(self)@ == val,
    {
        self.val = val;
    }

    /// A write followed by a read gives back what was written, whatever the store held,
    /// and a later write replaces an earlier one.
    pub proof fn lemma_read_after_write(s: Self, a: u32, b: u32)
        ensures
            s.spec_set(a)@ == a,
            s.spec_set(a).spec_set(b) == s.spec_set(b),
    {
    }
}

/// The maximum number of votes that a voter may cast.
pub struct MaxVotesPerVoter {
    val: u32,
}

impl View for MaxVotesPerVoter {
    type V = u32;

    open spec fn view(&self) -> u32 {
        self.spec_value()
    }
}

impl MaxVotesPerVoter {
    /// The value held by the store.
    pub closed spec fn spec_value(&self) -> u32 {
        self.val
    }

    /// The store as it stands after `val` was written into it.
    pub closed spec fn spec_set(self, val: u32) -> Self {
        MaxVotesPerVoter { val }
    }

    /// A store holding zero.
    pub fn new() -> (s: Self)
        ensures
            s@ == 0,
    {
        MaxVotesPerVoter { val: 0 }
    }

    /// Reads the value held by the store.
    pub fn get(&self) -> (r: u32)
        ensures
            r == self@,
    {
        self.val
    }

    /// Writes `val` into the store.
    pub fn set(&mut self, val: u32)
        ensures
            *final(self) == old(self).spec_set(val),
            final(self)@ == val,
    {
        self.val = val;
    }

    /// A write followed by a read gives back what was written, whatever the store held,
    /// and a later write replaces an earlier one.
    pub proof fn lemma_read_after_write(s: Self, a: u32, b: u32)
        ensures
            s.spec_set(a)@ == a,
            s.spec_set(a).spec_set(b) == s.spec_set(b),
    {
    }
}

/// The maximum weight of a solution.
pub struct MaxWeight {
    val: u64,
}

impl View for MaxWeight {
    type V = u64;

    open spec fn view(&self) -> u64 {
        self.spec_value()
    }
}

impl MaxWeight {
    /// The value held by the store.
    pub closed spec fn spec_value(&self) -> u64 {
        self.val
    }

    /// The store as it stands after `val` was written into it.
    pub closed spec fn spec_set(self, val: u64) -> Self {
        MaxWeight { val }
    }

    /// A store holding zero.
    pub fn new() -> (s: Self)
        ensures
            s@ == 0,
    {
        MaxWeight { val: 0 }
    }

    /// Reads the value held by the store.
    pub fn get(&self) -> (r: u64)
        ensures
            r == self@,
    {
        self.val
    }

    /// Writes `val` into the store.
    pub fn set(&mut self, val: u64)
        ensures
            *final(self) == old(self).spec_set(val),
            final(self)@ == val,
    {
        self.val = val;
    }

    /// A write followed by a read gives back what was written, whatever the store held,
    /// and a later write replaces an earlier one.
    pub proof fn lemma_read_after_write(s: Self, a: u64, b: u64)
        ensures
            s.spec_set(a)@ == a,
            s.spec_set(a).spec_set(b) == s.spec_set(b),
    {
    }
}

/// The weight of database reads and writes, held as its two parts.
pub struct DbWeight {
    read: u64,
    write: u64,
}

impl View for DbWeight {
    type V = RuntimeDbWeight;

    open spec fn view(&self) -> RuntimeDbWeight {
        self.spec_value()
    }
}

impl DbWeight {
    /// The weight held by the store.
    pub closed spec fn spec_value(&self) -> RuntimeDbWeight {
        RuntimeDbWeight { read: self.read, write: self.write }
    }

    /// The store as it stands after `weight` was written into it.
    pub closed spec fn spec_set(self, weight: RuntimeDbWeight) -> Self {
        DbWeight { read: weight.read, write: weight.write }
    }

    /// A store holding zero for both reads and writes.
    pub fn new() -> (s: Self)
        ensures
            s@ == (RuntimeDbWeight { read: 0, write: 0 }),
    {
        DbWeight { read: 0, write: 0 }
    }

    /// Reads the weight held by the store.
    pub fn get(&self) -> (r: RuntimeDbWeight)
        ensures
            r == self@,
    {
        RuntimeDbWeight { read: self.read, write: self.write }
    }

    /// Writes `weight` into the store: its read part and its write part.
    pub fn set(&mut self, weight: RuntimeDbWeight)
        ensures
            *final(self) == old(self).spec_set(weight),
            final(self)@ == weight,
    {
        self.read = weight.read;
        self.write = weight.write;
    }

    /// A write followed by a read gives back what was written, both parts of it,
    /// whatever the store held, and a later write replaces an earlier one.
    pub proof fn lemma_read_after_write(s: Self, a: RuntimeDbWeight, b: RuntimeDbWeight)
        ensures
            s.spec_set(a)@ == a,
            s.spec_set(a).spec_set(b) == s.spec_set(b),
    {
    }
}

} // verus!
