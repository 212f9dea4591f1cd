//! Creating a usage plan.

use vstd::prelude::*;
use crate::accounts::{Account, Signer};
use crate::errors::GatekeeperError;
use crate::helpers::{assert_authority, authority_verdict};
use crate::state::{GlobalState, UsagePlan};

verus! {

/// The records that creating a plan touches. Only `usage_plan` is written.
#[derive(Clone, Copy, Debug, PartialEq, Eq)]
pub struct CreatePlan {
    /// The caller.
    pub authority: Signer,
    /// The configuration of the deployment.
    pub global_state: Account<GlobalState>,
    /// The place of the new plan, which the store has just created.
    pub usage_plan: Account<UsagePlan>,
}

impl CreatePlan {
    /// The records after the plan was written.
    pub open spec fn created(&self, plan: UsagePlan) -> CreatePlan {
        CreatePlan { usage_plan: Account { key: self.usage_plan.key, data: plan }, ..*self }
    }
}

/// Writes a new usage plan with the given values. No value is refused: a
/// window of zero seconds and a quota of zero are stored as given.
pub fn handler(
    ctx: &mut CreatePlan,
    plan_id: u64,
    window_seconds: u64,
    max_per_window: u64,
    is_active: bool,
) -> (r: Result<(), GatekeeperError>)
    ensures
        r == authority_verdict(old(ctx).global_state, old(ctx).authority),
        *final(ctx) == if r is Ok {
            old(ctx).created(UsagePlan { plan_id, window_seconds, max_per_window, is_active })
        } else {
            *old(ctx)
        },
{
    assert_authority(&ctx.global_state, &ctx.authority)?;
    ctx.usage_plan.data.plan_id = plan_id;
    ctx.usage_plan.data.window_seconds = window_seconds;
    ctx.usage_plan.data.max_per_window = max_per_window;
    ctx.usage_plan.data.is_active = is_active;
    Ok(())
}

} // verus!
