//! Consumption: may this key be used now, and if so, count the use.

use vstd::prelude::*;
use crate::accounts::Account;
use crate::clock::unix_timestamp;
use crate::constants::KEY_STATUS_REVOKED;
use crate::errors::{GatekeeperError, InstructionError};
use crate::state::{ApiKey, Role, UsagePlan};

verus! {

/// The records that a consumption touches. Only `api_key` is written.
#[derive(Clone, Copy, Debug, PartialEq, Eq)]
pub struct Consume {
    /// The key that is presented.
    pub api_key: Account<ApiKey>,
    /// The plan that the caller names as the key's.
    pub usage_plan: Account<UsagePlan>,
    /// The role that the caller names as the key's.
    pub role: Account<Role>,
}

impl Consume {
    /// The first rule that the request breaks, whatever the time: the key is
    /// not revoked, the plan is active, plan and role are the ones the key
    /// is bound to, and the role grants every required bit.
    pub open spec fn refusal(&self, required_scopes_mask: u64) -> Option<GatekeeperError> {
        if self.api_key.data.status == KEY_STATUS_REVOKED {
            Some(GatekeeperError::KeyRevoked)
        } else if !self.usage_plan.data.is_active {
            Some(GatekeeperError::PlanInactive)
        } else if self.api_key.data.plan != self.usage_plan.key {
            Some(GatekeeperError::InvalidPlanOrRole)
        } else if self.api_key.data.role != self.role.key {
            Some(GatekeeperError::InvalidPlanOrRole)
        } else if !self.role.data.grants(required_scopes_mask) {
            Some(GatekeeperError::InsufficientScopes)
        } else {
            None
        }
    }

    /// Whether a consumption at `now` is admitted, and if not, why. A request
    /// that breaks no rule is admitted while the window in force at `now`
    /// holds fewer consumptions than the plan allows.
    pub open spec fn verdict(&self, required_scopes_mask: u64, now: i64) -> Result<
        (),
        GatekeeperError,
    > {
        match self.refusal(required_scopes_mask) {
            Some(reason) => Err(reason),
            None => {
                let window = self.api_key.data.window_at(self.usage_plan.data.window_seconds, now);
                if window.1 < self.usage_plan.data.max_per_window {
                    Ok(())
                } else {
                    Err(GatekeeperError::RateLimitExceeded)
                }
            },
        }
    }

    /// The records after a consumption attempt at `now`. An admitted one
    /// moves the key into the window in force and counts one more use. A
    /// rejected one changes nothing.
    pub open spec fn after(&self, required_scopes_mask: u64, now: i64) -> Consume {
        if self.verdict(required_scopes_mask, now) is Ok {
            let window = self.api_key.data.window_at(self.usage_plan.data.window_seconds, now);
            Consume {
                api_key: Account {
                    key: self.api_key.key,
                    data: ApiKey {
                        window_start: window.0,
                        count: (window.1 + 1) as u64,
                        ..self.api_key.data
                    },
                },
                ..*self
            }
        } else {
            *self
        }
    }

    /// What an attempt at the clock's time may answer and leave behind. Either
    /// the clock gave a time, and answer and records are those of an attempt
    /// at that time. Or the request broke no rule that needs no time, the
    /// clock gave none, and the records are as before.
    pub open spec fn attempted(
        &self,
        required_scopes_mask: u64,
        post: Consume,
        r: Result<(), InstructionError>,
    ) -> bool {
        ||| {
            &&& r == Err::<(), InstructionError>(InstructionError::ClockUnavailable)
            &&& self.refusal(required_scopes_mask) is None
            &&& post == *self
        }
        ||| exists|now: i64|
            {
                &&& r == InstructionError::lift(#[trigger] self.verdict(required_scopes_mask, now))
                &&& post == self.after(required_scopes_mask, now)
            }
    }

    /// Tests the rules that need no time, in their order.
    pub fn check(&self, required_scopes_mask: u64) -> (r: Result<(), GatekeeperError>)
        ensures
            r == match self.refusal(required_scopes_mask) {
                Some(reason) => Err::<(), GatekeeperError>(reason),
                None => Ok(()),
            },
    {
        if self.api_key.data.status == KEY_STATUS_REVOKED {
            return Err(GatekeeperError::KeyRevoked);
        }
        if !self.usage_plan.data.is_active {
            return Err(GatekeeperError::PlanInactive);
        }
        if self.api_key.data.plan != self.usage_plan.key {
            return Err(GatekeeperError::InvalidPlanOrRole);
        }
        if self.api_key.data.role != self.role.key {
            return Err(GatekeeperError::InvalidPlanOrRole);
        }
        if self.role.data.scopes_bitmask & required_scopes_mask != required_scopes_mask {
            return Err(GatekeeperError::InsufficientScopes);
        }
        Ok(())
    }
}

/// One consumption attempt at the time `now`.
pub fn consume_at(ctx: &mut Consume, required_scopes_mask: u64, now: i64) -> (r: Result<
    (),
    GatekeeperError,
>)
    ensures
        r == old(ctx).verdict(required_scopes_mask, now),
        *final(ctx) == old(ctx).after(required_scopes_mask, now),
        r is Err ==> *final(ctx) == *old(ctx),
{
    match ctx.check(required_scopes_mask) {
        Err(reason) => Err(reason),
        Ok(()) => ctx.api_key.data.record_use(&ctx.usage_plan.data, now),
    }
}

/// One consumption attempt at the time that the clock gives. The clock is
/// read only when the request breaks none of the rules that need no time.
pub fn handler(ctx: &mut Consume, required_scopes_mask: u64) -> (r: Result<(), InstructionError>)
    ensures
        old(ctx).attempted(required_scopes_mask, *final(ctx), r),
        old(ctx).refusal(required_scopes_mask) matches Some(reason) ==> r == Err::<
            (),
            InstructionError,
        >(InstructionError::Policy(reason)),
        r is Err ==> *final(ctx) == *old(ctx),
{
    match ctx.check(required_scopes_mask) {
        Err(reason) => {
            assert(old(ctx).verdict(required_scopes_mask, 0) == Err::<(), GatekeeperError>(reason));
            Err(InstructionError::Policy(reason))
        },
        Ok(()) => match unix_timestamp() {
            Err(_) => Err(InstructionError::ClockUnavailable),
            Ok(now) => InstructionError::from_policy(consume_at(ctx, required_scopes_mask, now)),
        },
    }
}

} // verus!
