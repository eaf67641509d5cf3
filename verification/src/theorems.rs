//! What holds of the operations on every record, stated over the functions
//! that their contracts use.

use vstd::prelude::*;
use crate::address::is_derived_from;
use crate::counter::spec_decrement;
use crate::counter::spec_increment;
use crate::counter::spec_initialize;
use crate::counter::spec_set;
use crate::counter::Counter;
use crate::counter::Initialize;
use crate::counter::Update;
use crate::error::CounterError;
use crate::policy::Policy;
use crate::policy::RESET_ABOVE;

verus! {

/// The state after `n` increments in a row, or the error of the first one
/// that fails.
pub open spec fn spec_increments(policy: Policy, ctx: Update, n: nat) -> Result<Update, CounterError>
    decreases n,
{
    if n == 0 {
        Ok(ctx)
    } else {
        match spec_increments(policy, ctx, (n - 1) as nat) {
            Ok(before) => spec_increment(policy, before),
            Err(error) => Err(error),
        }
    }
}

/// The state after `n` decrements in a row, or the error of the first one
/// that fails.
pub open spec fn spec_decrements(policy: Policy, ctx: Update, n: nat) -> Result<Update, CounterError>
    decreases n,
{
    if n == 0 {
        Ok(ctx)
    } else {
        match spec_decrements(policy, ctx, (n - 1) as nat) {
            Ok(before) => spec_decrement(policy, before),
            Err(error) => Err(error),
        }
    }
}

/// A record is created once: after an `initialize` that succeeded, the same
/// call fails with `AlreadyInitialized`.
pub proof fn initialize_succeeds_once(policy: Policy, ctx: Initialize)
    requires
        spec_initialize(policy, ctx) is Ok,
    ensures
        spec_initialize(policy, spec_initialize(policy, ctx)->Ok_0) == Err::<Initialize, CounterError>(
            CounterError::AlreadyInitialized,
        ),
{
}

/// At an address that holds a record, `initialize` by a caller who may create
/// a record there fails with `AlreadyInitialized`.
pub proof fn initialize_refuses_occupied_address(policy: Policy, ctx: Initialize)
    requires
        ctx.counter is Some,
        policy.spec_may_create(ctx.address, ctx.authority),
    ensures
        spec_initialize(policy, ctx) == Err::<Initialize, CounterError>(
            CounterError::AlreadyInitialized,
        ),
{
}

/// A new record counts from zero, belongs to the caller and stands at the
/// address that was asked for.
pub proof fn initialize_starts_at_zero(policy: Policy, ctx: Initialize)
    requires
        ctx.counter is None,
        policy.spec_may_create(ctx.address, ctx.authority),
    ensures
        spec_initialize(policy, ctx) == Ok::<Initialize, CounterError>(
            (Initialize {
                address: ctx.address,
                counter: Some(Counter { count: 0, authority: ctx.authority }),
                authority: ctx.authority,
            }),
        ),
{
}

/// Under `Ownership::Derived` a record is created only at the address that is
/// derived from its authority.
pub proof fn derived_record_stands_at_its_address(policy: Policy, ctx: Initialize)
    requires
        policy.ownership is Derived,
        spec_initialize(policy, ctx) is Ok,
    ensures
        spec_initialize(policy, ctx)->Ok_0.counter is Some,
        is_derived_from(
            ctx.address@,
            spec_initialize(policy, ctx)->Ok_0.counter->Some_0.authority@,
            policy.ownership->program@,
        ),
{
}

/// Under `Ownership::Derived` an identity has one record: two records that
/// were created for the same authority stand at the same address.
pub proof fn one_record_per_authority(policy: Policy, first: Initialize, second: Initialize)
    requires
        policy.ownership is Derived,
        spec_initialize(policy, first) is Ok,
        spec_initialize(policy, second) is Ok,
        first.authority == second.authority,
    ensures
        first.address == second.address,
{
    assert(first.address@ == second.address@);
    assert(first.address.bytes =~= second.address.bytes);
}

/// One increment under `IncrementRule::Reset`, by the authority and below the
/// largest value of the type: the count becomes zero exactly when the sum
/// passes `RESET_ABOVE`, whatever the count was before, and the sum otherwise.
pub proof fn reset_fires_above_limit(policy: Policy, ctx: Update)
    requires
        policy.rule is Reset,
        policy.spec_may_update(ctx.address, ctx.counter.authority, ctx.authority),
        ctx.counter.count < u64::MAX,
    ensures
        ctx.counter.count + 1 > RESET_ABOVE ==> spec_increment(policy, ctx) == Ok::<
            Update,
            CounterError,
        >(ctx.with_count(0)),
        ctx.counter.count + 1 <= RESET_ABOVE ==> spec_increment(policy, ctx) == Ok::<
            Update,
            CounterError,
        >(ctx.with_count((ctx.counter.count + 1) as u64)),
{
}

/// From zero, `n` increments by the authority under `IncrementRule::Reset`
/// all succeed, and the count runs 0, 1, ..., 1000, 0, 1, ...: after `n` of
/// them it is the remainder of `n` by 1001.
pub proof fn increments_cycle_under_reset(policy: Policy, ctx: Update, n: nat)
    requires
        policy.rule is Reset,
        policy.spec_may_update(ctx.address, ctx.counter.authority, ctx.authority),
        ctx.counter.count == 0,
    ensures
        spec_increments(policy, ctx, n) == Ok::<Update, CounterError>(
            ctx.with_count((n % (RESET_ABOVE + 1) as nat) as u64),
        ),
    decreases n,
{
    if n > 0 {
        increments_cycle_under_reset(policy, ctx, (n - 1) as nat);
        let period = (RESET_ABOVE + 1) as nat;
        let count = ((n - 1) as nat) % period;
        let before = ctx.with_count(count as u64);
        assert(period == 1001);
        assert(n % 1001 == if count == 1000 { 0 } else { count + 1 }) by (nonlinear_arith)
            requires
                n > 0,
                count == ((n - 1) as nat) % 1001,
        ;
        assert(spec_increment(policy, before) == Ok::<Update, CounterError>(
            ctx.with_count((n % period) as u64),
        ));
    } else {
        assert(ctx.with_count(0) == ctx);
    }
}

/// Under `IncrementRule::Checked` an increment by the authority adds one,
/// and fails with `Overflow` only at the largest value of the type.
pub proof fn increment_adds_one_when_checked(policy: Policy, ctx: Update)
    requires
        policy.rule is Checked,
        policy.spec_may_update(ctx.address, ctx.counter.authority, ctx.authority),
    ensures
        ctx.counter.count < u64::MAX ==> spec_increment(policy, ctx) == Ok::<Update, CounterError>(
            ctx.with_count((ctx.counter.count + 1) as u64),
        ),
        ctx.counter.count == u64::MAX ==> spec_increment(policy, ctx) == Err::<
            Update,
            CounterError,
        >(CounterError::Overflow),
{
}

/// A decrement at zero fails, whoever calls; called by the authority it fails
/// with `Underflow`.
pub proof fn decrement_fails_at_zero(policy: Policy, ctx: Update)
    requires
        ctx.counter.count == 0,
    ensures
        spec_decrement(policy, ctx) is Err,
        policy.spec_may_update(ctx.address, ctx.counter.authority, ctx.authority) ==> spec_decrement(
            policy,
            ctx,
        ) == Err::<Update, CounterError>(CounterError::Underflow),
{
}

/// Decrements by the authority take one each, as many of them as the count
/// allows: `n` of them leave the count less `n`, and once that is zero, one
/// more fails with `Underflow`.
pub proof fn decrements_reach_zero(policy: Policy, ctx: Update, n: nat)
    requires
        policy.spec_may_update(ctx.address, ctx.counter.authority, ctx.authority),
        n <= ctx.counter.count,
    ensures
        spec_decrements(policy, ctx, n) == Ok::<Update, CounterError>(
            ctx.with_count((ctx.counter.count - n) as u64),
        ),
        n == ctx.counter.count ==> spec_decrements(policy, ctx, n + 1) == Err::<
            Update,
            CounterError,
        >(CounterError::Underflow),
    decreases n,
{
    if n > 0 {
        decrements_reach_zero(policy, ctx, (n - 1) as nat);
    }
    if n == ctx.counter.count {
        let last = ctx.with_count(0);
        assert(spec_decrements(policy, ctx, n + 1) == spec_decrement(policy, last));
    }
}

/// `set` by the authority puts `value` in place of the count, whatever the
/// count was and whatever the increment rule is.
pub proof fn set_replaces_count(policy: Policy, ctx: Update, value: u64)
    requires
        policy.spec_may_update(ctx.address, ctx.counter.authority, ctx.authority),
    ensures
        spec_set(policy, ctx, value) == Ok::<Update, CounterError>(ctx.with_count(value)),
        spec_set(policy, ctx, value)->Ok_0.counter.count == value,
{
}

/// A caller who does not control the record is refused by every operation
/// that changes it, with `AuthorityMismatch`.
pub proof fn stranger_is_refused(policy: Policy, ctx: Update, value: u64)
    requires
        !policy.spec_may_update(ctx.address, ctx.counter.authority, ctx.authority),
    ensures
        spec_increment(policy, ctx) == Err::<Update, CounterError>(CounterError::AuthorityMismatch),
        spec_decrement(policy, ctx) == Err::<Update, CounterError>(CounterError::AuthorityMismatch),
        spec_set(policy, ctx, value) == Err::<Update, CounterError>(CounterError::AuthorityMismatch),
{
}

/// A caller who may not create a record at the address is refused by
/// `initialize` with `AuthorityMismatch`, whether the address is free or not.
pub proof fn stranger_cannot_initialize(policy: Policy, ctx: Initialize)
    requires
        !policy.spec_may_create(ctx.address, ctx.authority),
    ensures
        spec_initialize(policy, ctx) == Err::<Initialize, CounterError>(
            CounterError::AuthorityMismatch,
        ),
{
}

/// Under `Ownership::Stored` the caller controls a record exactly when the
/// record names the caller.
pub proof fn stored_owner_is_the_named_authority(policy: Policy, ctx: Update)
    requires
        policy.ownership is Stored,
    ensures
        policy.spec_may_update(ctx.address, ctx.counter.authority, ctx.authority) <==> ctx.counter.authority@
            == ctx.authority@,
{
    if ctx.counter.authority@ == ctx.authority@ {
        assert(ctx.counter.authority.bytes =~= ctx.authority.bytes);
    }
}

/// No operation moves a record or gives it another authority: where one
/// succeeds, the address, the stored authority and the caller are as before.
pub proof fn authority_is_fixed(policy: Policy, ctx: Update, value: u64)
    ensures
        spec_increment(policy, ctx) matches Ok(after) ==> after == ctx.with_count(
            after.counter.count,
        ),
        spec_decrement(policy, ctx) matches Ok(after) ==> after == ctx.with_count(
            after.counter.count,
        ),
        spec_set(policy, ctx, value) matches Ok(after) ==> after == ctx.with_count(
            after.counter.count,
        ),
{
}

} // verus!
