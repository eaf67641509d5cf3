//! The counter record and its four operations: create, increment, decrement
//! and set.
//!
//! An operation is one transaction on one record: it either succeeds and
//! leaves the new state behind, or fails with a `CounterError` and leaves
//! everything as it was. All checks come before the first write.

use vstd::prelude::*;
use crate::error::CounterError;
use crate::key::Key;
use crate::policy::IncrementRule;
use crate::policy::Policy;
use crate::policy::RESET_ABOVE;

verus! {

/// The bytes that a stored record takes: a tag of 8 bytes, the count in 8
/// and the authority in 32.
pub const RECORD_BYTES: usize = 48;

/// The record: a count and the identity that may change it.
#[derive(Clone, Copy, Debug, PartialEq, Eq)]
pub struct Counter {
    /// The current count.
    pub count: u64,
    /// The identity that may change the count. It is set when the record is
    /// created and no operation changes it.
    pub authority: Key,
}

/// What the creation of a record works on.
#[derive(Clone, Copy, Debug, PartialEq, Eq)]
pub struct Initialize {
    /// The address at which the record is to be created.
    pub address: Key,
    /// What the address holds: `None` while no record exists there.
    pub counter: Option<Counter>,
    /// The caller, whose identity the host has verified.
    pub authority: Key,
}

/// What a change of an existing record works on.
#[derive(Clone, Copy, Debug, PartialEq, Eq)]
pub struct Update {
    /// The address of the record.
    pub address: Key,
    /// The record.
    pub counter: Counter,
    /// The caller, whose identity the host has verified.
    pub authority: Key,
}

/// The count that an increment leaves behind. At the largest value of the
/// type the addition fails; under `IncrementRule::Reset` a sum above
/// `RESET_ABOVE` is replaced by zero.
pub open spec fn spec_next_count(rule: IncrementRule, count: u64) -> Result<u64, CounterError> {
    if count == u64::MAX {
        Err(CounterError::Overflow)
    } else if rule is Reset && count + 1 > RESET_ABOVE {
        Ok(0)
    } else {
        Ok((count + 1) as u64)
    }
}

/// The count that a decrement leaves behind: zero has none.
pub open spec fn spec_previous_count(count: u64) -> Result<u64, CounterError> {
    if count == 0 {
        Err(CounterError::Underflow)
    } else {
        Ok((count - 1) as u64)
    }
}

/// Adds one to `count` under `rule`, or says that the sum does not fit.
pub fn next_count(rule: IncrementRule, count: u64) -> (next: Result<u64, CounterError>)
    ensures
        next == spec_next_count(rule, count),
{
    match count.checked_add(1) {
        None => Err(CounterError::Overflow),
        Some(sum) => {
            match rule {
                IncrementRule::Reset => {
                    if sum > RESET_ABOVE {
                        Ok(0)
                    } else {
                        Ok(sum)
                    }
                },
                IncrementRule::Checked => Ok(sum),
            }
        },
    }
}

/// Takes one from `count`, or says that it is zero already.
pub fn previous_count(count: u64) -> (previous: Result<u64, CounterError>)
    ensures
        previous == spec_previous_count(count),
{
    if count == 0 {
        return Err(CounterError::Underflow);
    }
    match count.checked_sub(1) {
        Some(difference) => Ok(difference),
        None => Err(CounterError::Underflow),
    }
}

impl Update {
    /// The same call on the same record, with `count` in place of the count.
    pub open spec fn with_count(self, count: u64) -> Update {
        Update {
            address: self.address,
            counter: Counter { count, authority: self.counter.authority },
            authority: self.authority,
        }
    }
}

/// What `initialize` does: the state that it leaves behind, or the reason for
/// which it refuses. The caller must be one that may create the record; then
/// the address must be free.
pub open spec fn spec_initialize(policy: Policy, ctx: Initialize) -> Result<Initialize, CounterError> {
    if !policy.spec_may_create(ctx.address, ctx.authority) {
        Err(CounterError::AuthorityMismatch)
    } else if ctx.counter is Some {
        Err(CounterError::AlreadyInitialized)
    } else {
        Ok(
            Initialize {
                address: ctx.address,
                counter: Some(Counter { count: 0, authority: ctx.authority }),
                authority: ctx.authority,
            },
        )
    }
}

/// What `increment` does.
pub open spec fn spec_increment(policy: Policy, ctx: Update) -> Result<Update, CounterError> {
    if !policy.spec_may_update(ctx.address, ctx.counter.authority, ctx.authority) {
        Err(CounterError::AuthorityMismatch)
    } else {
        match spec_next_count(policy.rule, ctx.counter.count) {
            Ok(count) => Ok(ctx.with_count(count)),
            Err(error) => Err(error),
        }
    }
}

/// What `decrement` does.
pub open spec fn spec_decrement(policy: Policy, ctx: Update) -> Result<Update, CounterError> {
    if !policy.spec_may_update(ctx.address, ctx.counter.authority, ctx.authority) {
        Err(CounterError::AuthorityMismatch)
    } else {
        match spec_previous_count(ctx.counter.count) {
            Ok(count) => Ok(ctx.with_count(count)),
            Err(error) => Err(error),
        }
    }
}

/// What `set` does.
pub open spec fn spec_set(policy: Policy, ctx: Update, value: u64) -> Result<Update, CounterError> {
    if !policy.spec_may_update(ctx.address, ctx.counter.authority, ctx.authority) {
        Err(CounterError::AuthorityMismatch)
    } else {
        Ok(ctx.with_count(value))
    }
}

/// Creates the record at `ctx.address` with a count of zero and the caller as
/// its authority.
///
/// Fails with `AuthorityMismatch` where the caller may not create a record
/// at that address, and with `AlreadyInitialized` where the address holds a
/// record already.
pub fn initialize(policy: &Policy, ctx: &mut Initialize) -> (result: Result<(), CounterError>)
    ensures
        match spec_initialize(*policy, *old(ctx)) {
            Ok(next) => result is Ok && *final(ctx) == next,
            Err(error) => result == Err::<(), CounterError>(error) && *final(ctx) == *old(ctx),
        },
{
    if !policy.may_create(&ctx.address, &ctx.authority) {
        return Err(CounterError::AuthorityMismatch);
    }
    if ctx.counter.is_some() {
        return Err(CounterError::AlreadyInitialized);
    }
    ctx.counter = Some(Counter { count: 0, authority: ctx.authority });
    Ok(())
}

/// Adds one to the count. Under `IncrementRule::Reset` a count that would
/// pass `RESET_ABOVE` becomes zero instead.
///
/// Fails with `AuthorityMismatch` where the caller does not control the
/// record, and with `Overflow` where the count is the largest of its type.
pub fn increment(policy: &Policy, ctx: &mut Update) -> (result: Result<(), CounterError>)
    ensures
        match spec_increment(*policy, *old(ctx)) {
            Ok(next) => result is Ok && *final(ctx) == next,
            Err(error) => result == Err::<(), CounterError>(error) && *final(ctx) == *old(ctx),
        },
{
    if !policy.may_update(&ctx.address, &ctx.counter.authority, &ctx.authority) {
        return Err(CounterError::AuthorityMismatch);
    }
    match next_count(policy.rule, ctx.counter.count) {
        Ok(count) => {
            ctx.counter.count = count;
            Ok(())
        },
        Err(error) => Err(error),
    }
}

/// Takes one from the count.
///
/// Fails with `AuthorityMismatch` where the caller does not control the
/// record, and with `Underflow` where the count is zero.
pub fn decrement(policy: &Policy, ctx: &mut Update) -> (result: Result<(), CounterError>)
    ensures
        match spec_decrement(*policy, *old(ctx)) {
            Ok(next) => result is Ok && *final(ctx) == next,
            Err(error) => result == Err::<(), CounterError>(error) && *final(ctx) == *old(ctx),
        },
{
    if !policy.may_update(&ctx.address, &ctx.counter.authority, &ctx.authority) {
        return Err(CounterError::AuthorityMismatch);
    }
    match previous_count(ctx.counter.count) {
        Ok(count) => {
            ctx.counter.count = count;
            Ok(())
        },
        Err(error) => Err(error),
    }
}

/// Replaces the count with `value`, whatever either of them is.
///
/// Fails with `AuthorityMismatch` where the caller does not control the
/// record.
pub fn set(policy: &Policy, ctx: &mut Update, value: u64) -> (result: Result<(), CounterError>)
    ensures
        match spec_set(*policy, *old(ctx), value) {
            Ok(next) => result is Ok && *final(ctx) == next,
            Err(error) => result == Err::<(), CounterError>(error) && *final(ctx) == *old(ctx),
        },
{
    if !policy.may_update(&ctx.address, &ctx.counter.authority, &ctx.authority) {
        return Err(CounterError::AuthorityMismatch);
    }
    ctx.counter.count = value;
    Ok(())
}

} // verus!
