//! The two choices that a deployment makes: how a record is tied to the
//! identity that controls it, and what an increment does at the ceiling.

use vstd::prelude::*;
use crate::address::is_address_of;
use crate::address::is_derived_from;
use crate::key::Key;

verus! {

/// The largest count that an increment under `IncrementRule::Reset` leaves
/// behind: a result above it becomes zero.
pub const RESET_ABOVE: u64 = 1000;

/// How a record is tied to its authority.
#[derive(Clone, Copy, Debug, PartialEq, Eq)]
pub enum Ownership {
    /// The address of the record is derived from the authority and from
    /// `program`: an identity has one record, and the caller of an operation
    /// controls the record whose address is derived from the caller.
    Derived { program: Key },
    /// The address is arbitrary. The record names its authority, and the
    /// caller of an operation controls the record that names the caller.
    Stored,
}

/// What an increment does with its result.
#[derive(Clone, Copy, Debug, PartialEq, Eq)]
pub enum IncrementRule {
    /// A result above `RESET_ABOVE` becomes zero in the same call.
    Reset,
    /// The result stands, whatever its size.
    Checked,
}

/// The ownership check and the increment rule that the operations go by.
#[derive(Clone, Copy, Debug, PartialEq, Eq)]
pub struct Policy {
    pub ownership: Ownership,
    pub rule: IncrementRule,
}

impl Policy {
    /// Records at derived addresses under `program`, with the reset.
    pub fn derived(program: Key) -> (policy: Policy)
        ensures
            policy == (Policy { ownership: Ownership::Derived { program }, rule: IncrementRule::Reset }),
    {
        Policy { ownership: Ownership::Derived { program }, rule: IncrementRule::Reset }
    }

    /// Records at arbitrary addresses that name their authority, without the
    /// reset.
    pub fn stored() -> (policy: Policy)
        ensures
            policy == (Policy { ownership: Ownership::Stored, rule: IncrementRule::Checked }),
    {
        Policy { ownership: Ownership::Stored, rule: IncrementRule::Checked }
    }

    /// Whether `authority` may create the record at `address`. Under
    /// `Ownership::Stored` any identity may create a record at any address.
    pub open spec fn spec_may_create(self, address: Key, authority: Key) -> bool {
        match self.ownership {
            Ownership::Derived { program } => is_derived_from(address@, authority@, program@),
            Ownership::Stored => true,
        }
    }

    /// Whether `authority` controls the record at `address` whose stored
    /// authority is `owner`.
    pub open spec fn spec_may_update(self, address: Key, owner: Key, authority: Key) -> bool {
        match self.ownership {
            Ownership::Derived { program } => is_derived_from(address@, authority@, program@),
            Ownership::Stored => owner == authority,
        }
    }

    /// Whether `authority` may create the record at `address`.
    pub fn may_create(&self, address: &Key, authority: &Key) -> (yes: bool)
        ensures
            yes == self.spec_may_create(*address, *authority),
    {
        match &self.ownership {
            Ownership::Derived { program } => is_address_of(address, authority, program),
            Ownership::Stored => true,
        }
    }

    /// Whether `authority` controls the record at `address` whose stored
    /// authority is `owner`.
    pub fn may_update(&self, address: &Key, owner: &Key, authority: &Key) -> (yes: bool)
        ensures
            yes == self.spec_may_update(*address, *owner, *authority),
    {
        match &self.ownership {
            Ownership::Derived { program } => is_address_of(address, authority, program),
            Ownership::Stored => owner.same(authority),
        }
    }
}

} // verus!
