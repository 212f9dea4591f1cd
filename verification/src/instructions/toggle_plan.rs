//! Switching a usage plan on or off.

use vstd::prelude::*;
use crate::accounts::{Account, Signer};
use crate::errors::GatekeeperError;
use crate::helpers::{assert_authority, authority_verdict};
use crate::state::{GlobalState, UsagePlan};

verus! {

/// The records that toggling a plan touches. Only `usage_plan` is written.
#[derive(Clone, Copy, Debug, PartialEq, Eq)]
pub struct TogglePlan {
    /// The caller.
    pub authority: Signer,
    /// The configuration of the deployment.
    pub global_state: Account<GlobalState>,
    /// The plan, as the store found it under the number that the caller
    /// gave.
    pub usage_plan: Account<UsagePlan>,
}

impl TogglePlan {
    /// The records after the plan's switch was flipped.
    pub open spec fn toggled(&self) -> TogglePlan {
        TogglePlan {
            usage_plan: Account {
                key: self.usage_plan.key,
                data: UsagePlan {
                    is_active: !self.usage_plan.data.is_active,
                    ..self.usage_plan.data
                },
            },
            ..*self
        }
    }
}

/// Flips `is_active` of the plan and leaves its other fields as they are.
/// The store has looked the plan up by `_plan_id`; the number is not read
/// again.
pub fn handler(ctx: &mut TogglePlan, _plan_id: u64) -> (r: Result<(), GatekeeperError>)
    ensures
        r == authority_verdict(old(ctx).global_state, old(ctx).authority),
        *final(ctx) == if r is Ok {
            old(ctx).toggled()
        } else {
            *old(ctx)
        },
{
    assert_authority(&ctx.global_state, &ctx.authority)?;
    ctx.usage_plan.data.is_active = !ctx.usage_plan.data.is_active;
    Ok(())
}

} // verus!
