use vstd::prelude::*;

use crate::types::{Address, Amount};

verus! {

/// Seconds in one day: the cooldown between two triggers is configured in days.
pub const SECONDS_PER_DAY: u64 = 86400;

/// Why an operation on a policy was refused. A refused operation changes nothing.
#[derive(Clone, Copy, Debug, PartialEq, Eq, Structural)]
pub enum PolicyError {
    /// No policy is registered under the identifier.
    NotFound,
    /// The policy does not accept triggers.
    Inactive,
    /// The report is dated after the policy's expiration.
    Expired,
    /// The measured rainfall does not exceed the threshold.
    ConditionNotMet,
    /// The policy has been triggered as many times as it allows.
    CapExhausted,
    /// Too little time has passed since the last trigger.
    CooldownActive,
    /// Only the owner may cancel or reactivate a policy.
    Unauthorized,
    /// Cancel on a policy that is already inactive.
    AlreadyInactive,
    /// Reactivate on a policy that is already active.
    AlreadyActive,
    /// A deposit of nothing.
    ZeroDeposit,
}

/// One insurance policy: who is paid, how much, and under which conditions.
#[derive(Debug)]
pub struct Policy {
    /// Recipient of every payout.
    pub beneficiary: Address,
    /// Free-form label of the insured place.
    pub location: Vec<u8>,
    /// Rainfall, in millimetres, that a report must exceed.
    pub rain_threshold: u64,
    /// Minimum number of days between two triggers.
    pub period_days: u64,
    /// Amount paid on each trigger.
    pub payout_amount: Amount,
    /// Whether the policy accepts triggers.
    pub active: bool,
    /// Last report timestamp that is accepted.
    pub expiration: u64,
    /// Timestamp of the last trigger, cancel or reactivation.
    pub last_update: Option<u64>,
    /// Maximum number of triggers; zero means no limit.
    pub trigger_cap: u32,
    /// Number of triggers so far.
    pub trigger_count: u32,
}

/// A transfer that a successful trigger asks the host to make.
#[derive(Debug)]
pub struct Payout {
    pub to: Address,
    pub amount: Amount,
}

/// The policy that registration creates from its terms.
pub open spec fn registered_policy(
    beneficiary: Address,
    location: Vec<u8>,
    rain_threshold: u64,
    period_days: u64,
    payout_amount: Amount,
    expiration: u64,
    trigger_cap: u32,
) -> Policy {
    Policy {
        beneficiary,
        location,
        rain_threshold,
        period_days,
        payout_amount,
        active: true,
        expiration,
        last_update: None,
        trigger_cap,
        trigger_count: 0,
    }
}

impl Policy {
    /// A trigger count never passes a non-zero cap.
    pub open spec fn wf(&self) -> bool {
        self.trigger_cap != 0 ==> self.trigger_count <= self.trigger_cap
    }

    /// The policy has a cap and has been triggered that many times.
    pub open spec fn cap_reached(&self) -> bool {
        self.trigger_cap != 0 && self.trigger_count >= self.trigger_cap
    }

    /// The trigger counter is at its largest value and can count no further;
    /// only a policy without a cap gets there.
    pub open spec fn counter_full(&self) -> bool {
        self.trigger_count == u32::MAX
    }

    /// A report dated `ts` comes before the cooldown since the last update is over.
    pub open spec fn cooling_down(&self, ts: u64) -> bool {
        match self.last_update {
            Some(last) => (ts as int) < last + self.period_days * SECONDS_PER_DAY,
            None => false,
        }
    }

    /// The outcome of a trigger report, with the conditions taken in order.
    pub open spec fn trigger_check(&self, measured_rain: u64, ts: u64) -> Result<(), PolicyError> {
        if !self.active {
            Err(PolicyError::Inactive)
        } else if ts > self.expiration {
            Err(PolicyError::Expired)
        } else if measured_rain <= self.rain_threshold {
            Err(PolicyError::ConditionNotMet)
        } else if self.cap_reached() {
            Err(PolicyError::CapExhausted)
        } else if self.cooling_down(ts) {
            Err(PolicyError::CooldownActive)
        } else if self.counter_full() {
            Err(PolicyError::CapExhausted)
        } else {
            Ok(())
        }
    }

    /// The policy after a successful trigger reported at `ts`.
    pub open spec fn after_trigger(&self, ts: u64) -> Policy {
        let count = (self.trigger_count + 1) as u32;
        Policy {
            active: if self.trigger_cap != 0 && count >= self.trigger_cap {
                false
            } else {
                self.active
            },
            last_update: Some(ts),
            trigger_count: count,
            ..*self
        }
    }

    /// The policy after an administrative change of status at time `now`.
    pub open spec fn with_status(&self, active: bool, now: u64) -> Policy {
        Policy { active, last_update: Some(now), ..*self }
    }

    /// The terms fixed at registration are those of `other`.
    pub open spec fn same_terms(&self, other: &Policy) -> bool {
        &&& self.beneficiary == other.beneficiary
        &&& self.location == other.location
        &&& self.rain_threshold == other.rain_threshold
        &&& self.period_days == other.period_days
        &&& self.payout_amount == other.payout_amount
        &&& self.expiration == other.expiration
        &&& self.trigger_cap == other.trigger_cap
    }

    /// A fresh policy: active, never triggered, never updated.
    pub fn new(
        beneficiary: Address,
        location: Vec<u8>,
        rain_threshold: u64,
        period_days: u64,
        payout_amount: Amount,
        expiration: u64,
        trigger_cap: u32,
    ) -> (r: Policy)
        ensures
            r == registered_policy(
                beneficiary,
                location,
                rain_threshold,
                period_days,
                payout_amount,
                expiration,
                trigger_cap,
            ),
            r.wf(),
    {
        Policy {
            beneficiary,
            location,
            rain_threshold,
            period_days,
            payout_amount,
            active: true,
            expiration,
            last_update: None,
            trigger_cap,
            trigger_count: 0,
        }
    }

    /// Evaluates a rainfall report. When every condition holds, records the
    /// trigger and returns the payout to make; otherwise the policy is unchanged.
    /// The payout and the recorded trigger belong together: a host whose
    /// transfer fails keeps the policy as it was before the call.
    pub fn trigger(&mut self, measured_rain: u64, report_timestamp: u64) -> (r: Result<
        Payout,
        PolicyError,
    >)
        ensures
            match old(self).trigger_check(measured_rain, report_timestamp) {
                Ok(_) => {
                    &&& r matches Ok(pay)
                    &&& pay.to == old(self).beneficiary
                    &&& pay.amount@ == old(self).payout_amount@
                    &&& *final(self) == old(self).after_trigger(report_timestamp)
                },
                Err(e) => {
                    &&& r == Err::<Payout, PolicyError>(e)
                    &&& *final(self) == *old(self)
                },
            },
            old(self).wf() ==> final(self).wf(),
    {
        if !self.active {
            return Err(PolicyError::Inactive);
        }
        if report_timestamp > self.expiration {
            return Err(PolicyError::Expired);
        }
        if measured_rain <= self.rain_threshold {
            return Err(PolicyError::ConditionNotMet);
        }
        if self.trigger_cap != 0 && self.trigger_count >= self.trigger_cap {
            return Err(PolicyError::CapExhausted);
        }
        if let Some(last) = self.last_update {
            let due: u128 = last as u128 + self.period_days as u128 * SECONDS_PER_DAY as u128;
            if (report_timestamp as u128) < due {
                return Err(PolicyError::CooldownActive);
            }
        }
        if self.trigger_count == u32::MAX {
            return Err(PolicyError::CapExhausted);
        }
        let payout = Payout { to: self.beneficiary, amount: self.payout_amount.copied() };
        self.last_update = Some(report_timestamp);
        self.trigger_count = self.trigger_count + 1;
        if self.trigger_cap != 0 && self.trigger_count >= self.trigger_cap {
            self.active = false;
        }
        Ok(payout)
    }

    /// Deactivates an active policy at time `now`.
    pub fn cancel(&mut self, now: u64) -> (r: Result<(), PolicyError>)
        ensures
            old(self).active ==> r == Ok::<(), PolicyError>(()) && *final(self) == old(self).with_status(false, now),
            !old(self).active ==> r == Err::<(), PolicyError>(PolicyError::AlreadyInactive)
                && *final(self) == *old(self),
            old(self).wf() ==> final(self).wf(),
    {
        if !self.active {
            return Err(PolicyError::AlreadyInactive);
        }
        self.active = false;
        self.last_update = Some(now);
        Ok(())
    }

    /// Activates an inactive policy at time `now`; its trigger count is kept.
    pub fn reactivate(&mut self, now: u64) -> (r: Result<(), PolicyError>)
        ensures
            !old(self).active ==> r == Ok::<(), PolicyError>(()) && *final(self) == old(self).with_status(true, now),
            old(self).active ==> r == Err::<(), PolicyError>(PolicyError::AlreadyActive)
                && *final(self) == *old(self),
            old(self).wf() ==> final(self).wf(),
    {
        if self.active {
            return Err(PolicyError::AlreadyActive);
        }
        self.active = true;
        self.last_update = Some(now);
        Ok(())
    }
}

} // verus!
