use vstd::prelude::*;

use crate::policy::{registered_policy, Payout, Policy, PolicyError};
use crate::storage::SeguroStorage;
use crate::types::{Address, Amount};

verus! {

/// What a trigger report on `id` comes to, given the stored policies `m`.
pub open spec fn trigger_outcome(m: Map<u64, Policy>, id: u64, measured_rain: u64, ts: u64) -> Result<
    (),
    PolicyError,
> {
    if !m.contains_key(id) {
        Err(PolicyError::NotFound)
    } else {
        m[id].trigger_check(measured_rain, ts)
    }
}

/// What a cancel of `id` by `caller` comes to.
pub open spec fn cancel_outcome(owner: Address, caller: Address, m: Map<u64, Policy>, id: u64) -> Result<
    (),
    PolicyError,
> {
    if caller != owner {
        Err(PolicyError::Unauthorized)
    } else if !m.contains_key(id) {
        Err(PolicyError::NotFound)
    } else if !m[id].active {
        Err(PolicyError::AlreadyInactive)
    } else {
        Ok(())
    }
}

/// What a reactivation of `id` by `caller` comes to.
pub open spec fn reactivate_outcome(
    owner: Address,
    caller: Address,
    m: Map<u64, Policy>,
    id: u64,
) -> Result<(), PolicyError> {
    if caller != owner {
        Err(PolicyError::Unauthorized)
    } else if !m.contains_key(id) {
        Err(PolicyError::NotFound)
    } else if m[id].active {
        Err(PolicyError::AlreadyActive)
    } else {
        Ok(())
    }
}

/// The stored policies after a cancel of `id` by `caller` at time `now`.
pub open spec fn cancel_state(
    owner: Address,
    caller: Address,
    m: Map<u64, Policy>,
    id: u64,
    now: u64,
) -> Map<u64, Policy> {
    if cancel_outcome(owner, caller, m, id) is Ok {
        m.insert(id, m[id].with_status(false, now))
    } else {
        m
    }
}

/// The stored policies after a reactivation of `id` by `caller` at time `now`.
pub open spec fn reactivate_state(
    owner: Address,
    caller: Address,
    m: Map<u64, Policy>,
    id: u64,
    now: u64,
) -> Map<u64, Policy> {
    if reactivate_outcome(owner, caller, m, id) is Ok {
        m.insert(id, m[id].with_status(true, now))
    } else {
        m
    }
}

/// Refuses every caller but the owner.
pub fn check_owner(caller: &Address, owner: &Address) -> (r: Result<(), PolicyError>)
    ensures
        r == (if *caller == *owner {
            Ok(())
        } else {
            Err(PolicyError::Unauthorized)
        }),
{
    if caller.same_as(owner) {
        Ok(())
    } else {
        Err(PolicyError::Unauthorized)
    }
}

/// Accepts any deposit but an empty one.
pub fn check_deposit(payment: &Amount) -> (r: Result<(), PolicyError>)
    ensures
        r == (if payment.value() == 0 {
            Err(PolicyError::ZeroDeposit)
        } else {
            Ok(())
        }),
{
    if payment.is_zero() {
        Err(PolicyError::ZeroDeposit)
    } else {
        Ok(())
    }
}

/// The policy engine: the owner fixed at creation and the store of policies.
pub struct SeguroParametrico {
    owner: Address,
    storage: SeguroStorage,
}

impl View for SeguroParametrico {
    type V = Map<u64, Policy>;

    closed spec fn view(&self) -> Map<u64, Policy> {
        self.storage@
    }
}

impl SeguroParametrico {
    /// The address allowed to cancel and reactivate policies.
    pub closed spec fn spec_owner(&self) -> Address {
        self.owner
    }

    /// Every stored policy keeps its trigger count within its cap.
    pub open spec fn wf(&self) -> bool {
        forall|id: u64| #[trigger] self@.contains_key(id) ==> self@[id].wf()
    }

    /// An engine with no policies, owned by the address that creates it.
    pub fn init(owner: Address) -> (r: SeguroParametrico)
        ensures
            r.spec_owner() == owner,
            r@ == Map::<u64, Policy>::empty(),
            r.wf(),
    {
        SeguroParametrico { owner, storage: SeguroStorage::new() }
    }

    /// The owner's address.
    pub fn owner(&self) -> (r: Address)
        ensures
            r == self.spec_owner(),
    {
        self.owner
    }

    /// Stores a fresh policy under `policy_id`, replacing any record there.
    pub fn register_policy(
        &mut self,
        policy_id: u64,
        beneficiary: Address,
        location: Vec<u8>,
        rain_threshold: u64,
        period_days: u64,
        payout_amount: Amount,
        expiration: u64,
        trigger_cap: u32,
    )
        ensures
            final(self)@ == old(self)@.insert(
                policy_id,
                registered_policy(
                    beneficiary,
                    location,
                    rain_threshold,
                    period_days,
                    payout_amount,
                    expiration,
                    trigger_cap,
                ),
            ),
            final(self).spec_owner() == old(self).spec_owner(),
            old(self).wf() ==> final(self).wf(),
    {
        let policy = Policy::new(
            beneficiary,
            location,
            rain_threshold,
            period_days,
            payout_amount,
            expiration,
            trigger_cap,
        );
        self.storage.put(policy_id, policy);
    }

    /// Evaluates a rainfall report on policy `policy_id`. On success the policy
    /// records the trigger and the payout to make is returned; on failure
    /// nothing changes. A host whose transfer of the payout fails keeps the
    /// engine as it was before the call.
    pub fn trigger_payment(&mut self, policy_id: u64, measured_rain: u64, report_timestamp: u64) -> (r:
        Result<Payout, PolicyError>)
        ensures
            match trigger_outcome(old(self)@, policy_id, measured_rain, report_timestamp) {
                Ok(_) => {
                    &&& r matches Ok(pay)
                    &&& pay.to == old(self)@[policy_id].beneficiary
                    &&& pay.amount@ == old(self)@[policy_id].payout_amount@
                    &&& final(self)@ == old(self)@.insert(
                        policy_id,
                        old(self)@[policy_id].after_trigger(report_timestamp),
                    )
                },
                Err(e) => {
                    &&& r == Err::<Payout, PolicyError>(e)
                    &&& final(self)@ == old(self)@
                },
            },
            final(self).spec_owner() == old(self).spec_owner(),
            old(self).wf() ==> final(self).wf(),
    {
        let ghost before = self@;
        match self.storage.take(policy_id) {
            None => Err(PolicyError::NotFound),
            Some(mut policy) => {
                let r = policy.trigger(measured_rain, report_timestamp);
                self.storage.put(policy_id, policy);
                proof {
                    if r is Err {
                        assert(self@ =~= before);
                    }
                }
                r
            },
        }
    }

    /// Deactivates policy `policy_id` at time `now`; only the owner may.
    pub fn cancelar_apolice(&mut self, caller: &Address, policy_id: u64, now: u64) -> (r: Result<
        (),
        PolicyError,
    >)
        ensures
            r == cancel_outcome(old(self).spec_owner(), *caller, old(self)@, policy_id),
            final(self)@ == cancel_state(old(self).spec_owner(), *caller, old(self)@, policy_id, now),
            final(self).spec_owner() == old(self).spec_owner(),
            old(self).wf() ==> final(self).wf(),
    {
        if let Err(e) = check_owner(caller, &self.owner) {
            return Err(e);
        }
        let ghost before = self@;
        match self.storage.take(policy_id) {
            None => Err(PolicyError::NotFound),
            Some(mut policy) => {
                let r = policy.cancel(now);
                self.storage.put(policy_id, policy);
                proof {
                    if r is Err {
                        assert(self@ =~= before);
                    }
                }
                r
            },
        }
    }

    /// Activates policy `policy_id` again at time `now`; only the owner may.
    /// The trigger count is kept.
    pub fn reativar_apolice(&mut self, caller: &Address, policy_id: u64, now: u64) -> (r: Result<
        (),
        PolicyError,
    >)
        ensures
            r == reactivate_outcome(old(self).spec_owner(), *caller, old(self)@, policy_id),
            final(self)@ == reactivate_state(
                old(self).spec_owner(),
                *caller,
                old(self)@,
                policy_id,
                now,
            ),
            final(self).spec_owner() == old(self).spec_owner(),
            old(self).wf() ==> final(self).wf(),
    {
        if let Err(e) = check_owner(caller, &self.owner) {
            return Err(e);
        }
        let ghost before = self@;
        match self.storage.take(policy_id) {
            None => Err(PolicyError::NotFound),
            Some(mut policy) => {
                let r = policy.reactivate(now);
                self.storage.put(policy_id, policy);
                proof {
                    if r is Err {
                        assert(self@ =~= before);
                    }
                }
                r
            },
        }
    }

    /// The policy stored under `policy_id`, if any.
    pub fn get_policy(&self, policy_id: u64) -> (r: Option<&Policy>)
        ensures
            match r {
                Some(p) => self@.contains_key(policy_id) && *p == self@[policy_id],
                None => !self@.contains_key(policy_id),
            },
    {
        self.storage.get(policy_id)
    }
}

} // verus!
