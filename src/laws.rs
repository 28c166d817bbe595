use vstd::prelude::*;

use crate::engine::{cancel_outcome, cancel_state, reactivate_outcome, reactivate_state};
use crate::policy::{registered_policy, Policy, PolicyError, SECONDS_PER_DAY};
use crate::types::{Address, Amount};

verus! {

/// Looking a policy up right after registering it gives back the record built
/// from the terms given: active, never triggered, never updated.
pub proof fn lemma_register_then_get(
    m: Map<u64, Policy>,
    id: u64,
    beneficiary: Address,
    location: Vec<u8>,
    rain_threshold: u64,
    period_days: u64,
    payout_amount: Amount,
    expiration: u64,
    trigger_cap: u32,
)
    ensures
        ({
            let p = registered_policy(
                beneficiary,
                location,
                rain_threshold,
                period_days,
                payout_amount,
                expiration,
                trigger_cap,
            );
            let after = m.insert(id, p);
            &&& after.contains_key(id)
            &&& after[id] == p
            &&& p.active
            &&& p.trigger_count == 0
            &&& p.last_update is None
            &&& p.beneficiary == beneficiary
            &&& p.location == location
            &&& p.rain_threshold == rain_threshold
            &&& p.period_days == period_days
            &&& p.payout_amount == payout_amount
            &&& p.expiration == expiration
            &&& p.trigger_cap == trigger_cap
        }),
{
}

/// A successful trigger counts exactly one trigger more; cancel and
/// reactivation leave the count as it was.
pub proof fn lemma_count_never_decreases(
    p: Policy,
    measured_rain: u64,
    ts: u64,
    active: bool,
    now: u64,
)
    ensures
        p.trigger_check(measured_rain, ts) is Ok ==> p.after_trigger(ts).trigger_count
            == p.trigger_count + 1,
        p.with_status(active, now).trigger_count == p.trigger_count,
{
}

/// A measurement equal to the threshold never triggers an active, unexpired
/// policy; one millimetre more does, when nothing else stands in the way and
/// the trigger counter can still count.
pub proof fn lemma_threshold_is_strict(p: Policy, ts: u64)
    requires
        p.active,
        ts <= p.expiration,
    ensures
        p.trigger_check(p.rain_threshold, ts) == Err::<(), PolicyError>(PolicyError::ConditionNotMet),
        p.rain_threshold < u64::MAX && !p.cap_reached() && !p.cooling_down(ts)
            && !p.counter_full() ==> p.trigger_check(
            (p.rain_threshold + 1) as u64,
            ts,
        ) == Ok::<(), PolicyError>(()),
{
}

/// The trigger that reaches a non-zero cap retires the policy, and the next
/// attempt fails as inactive, whatever it reports.
pub proof fn lemma_cap_retires(
    p: Policy,
    measured_rain: u64,
    ts: u64,
    next_rain: u64,
    next_ts: u64,
)
    requires
        p.trigger_cap > 0,
        p.trigger_count + 1 == p.trigger_cap,
        p.trigger_check(measured_rain, ts) is Ok,
    ensures
        !p.after_trigger(ts).active,
        p.after_trigger(ts).trigger_count == p.trigger_cap,
        p.after_trigger(ts).trigger_check(next_rain, next_ts) == Err::<(), PolicyError>(
            PolicyError::Inactive,
        ),
{
}

/// One second before the cooldown since the last update ends, a report that
/// meets every other condition fails as cooling down, whatever the count; at
/// its end it succeeds, when the trigger counter can still count.
pub proof fn lemma_cooldown_boundary(p: Policy, measured_rain: u64, last: u64, early: u64, due: u64)
    requires
        p.last_update == Some(last),
        due == last + p.period_days * SECONDS_PER_DAY,
        early + 1 == due,
        p.active,
        due <= p.expiration,
        measured_rain > p.rain_threshold,
        !p.cap_reached(),
    ensures
        p.trigger_check(measured_rain, early) == Err::<(), PolicyError>(PolicyError::CooldownActive),
        !p.counter_full() ==> p.trigger_check(measured_rain, due) == Ok::<(), PolicyError>(()),
{
}

/// Anyone but the owner is refused cancel and reactivation, and the refused
/// call leaves every stored policy, its status included, as it was.
pub proof fn lemma_only_owner_administers(
    owner: Address,
    caller: Address,
    m: Map<u64, Policy>,
    id: u64,
    now: u64,
)
    requires
        caller != owner,
    ensures
        cancel_outcome(owner, caller, m, id) == Err::<(), PolicyError>(PolicyError::Unauthorized),
        reactivate_outcome(owner, caller, m, id) == Err::<(), PolicyError>(
            PolicyError::Unauthorized,
        ),
        cancel_state(owner, caller, m, id, now) == m,
        reactivate_state(owner, caller, m, id, now) == m,
{
}

/// Triggers and changes of status keep the terms fixed at registration.
pub proof fn lemma_terms_are_kept(p: Policy, ts: u64, active: bool, now: u64)
    ensures
        p.after_trigger(ts).same_terms(&p),
        p.with_status(active, now).same_terms(&p),
{
}

} // verus!
