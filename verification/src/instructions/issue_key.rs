//! Issuing a key: a new credential for an owner, bound to a plan and a role.

use vstd::prelude::*;
use crate::accounts::{Account, Signer};
use crate::address::{plan_address, role_address, spec_plan_address, spec_role_address, view_of};
use crate::clock::unix_timestamp;
use crate::constants::KEY_STATUS_ACTIVE;
use crate::errors::{GatekeeperError, InstructionError};
use crate::helpers::{assert_authority, is_authority};
use crate::pubkey::Pubkey;
use crate::state::{ApiKey, GlobalState, Role, UsagePlan};

verus! {

/// The records that issuing a key touches. Only `api_key` is written.
#[derive(Clone, Copy, Debug, PartialEq, Eq)]
pub struct IssueKey {
    /// The caller.
    pub authority: Signer,
    /// The configuration of the deployment.
    pub global_state: Account<GlobalState>,
    /// The plan that the caller supplies for the new key.
    pub usage_plan: Account<UsagePlan>,
    /// The role that the caller supplies for the new key.
    pub role: Account<Role>,
    /// The place of the new key.
    pub api_key: Account<ApiKey>,
}

impl IssueKey {
    /// The first rule that the request breaks, where `expected_plan` and
    /// `expected_role` are the canonical addresses of the plan and the role
    /// that the caller named by number: the caller is the authority, and the
    /// supplied plan and role are stored at those addresses. A number for
    /// which no address can be derived has no canonical record, so no
    /// supplied record matches it.
    pub open spec fn refusal(
        &self,
        expected_plan: Option<Seq<u8>>,
        expected_role: Option<Seq<u8>>,
    ) -> Option<GatekeeperError> {
        if !is_authority(self.global_state, self.authority) {
            Some(GatekeeperError::Unauthorized)
        } else if expected_plan != Some(self.usage_plan.key@) {
            Some(GatekeeperError::InvalidPlanOrRole)
        } else if expected_role != Some(self.role.key@) {
            Some(GatekeeperError::InvalidPlanOrRole)
        } else {
            None
        }
    }

    /// The key that is issued to `owner` at `now`: active, bound to the
    /// supplied plan and role, never used.
    pub open spec fn new_key(&self, owner: Pubkey, now: i64) -> ApiKey {
        ApiKey {
            owner,
            plan: self.usage_plan.key,
            role: self.role.key,
            status: KEY_STATUS_ACTIVE,
            window_start: 0,
            count: 0,
            created_at: now,
        }
    }

    /// The records after a key was issued to `owner` at `now`.
    pub open spec fn issued(&self, owner: Pubkey, now: i64) -> IssueKey {
        IssueKey {
            api_key: Account { key: self.api_key.key, data: self.new_key(owner, now) },
            ..*self
        }
    }

    /// What the operation may answer and leave behind when the caller names
    /// the plan `plan_id` and the role `role_id`. A request that breaks a
    /// rule is refused for it. One that breaks none is granted with the
    /// clock's time as the key's time of issue, unless the clock gave none.
    /// A request that is not granted leaves the records as they were.
    pub open spec fn requested(
        &self,
        owner: Pubkey,
        plan_id: u64,
        role_id: u64,
        post: IssueKey,
        r: Result<(), InstructionError>,
    ) -> bool {
        match self.refusal(spec_plan_address(plan_id), spec_role_address(role_id)) {
            Some(reason) => {
                &&& r == Err::<(), InstructionError>(InstructionError::Policy(reason))
                &&& post == *self
            },
            None => {
                ||| {
                    &&& r == Err::<(), InstructionError>(InstructionError::ClockUnavailable)
                    &&& post == *self
                }
                ||| {
                    &&& r == Ok::<(), InstructionError>(())
                    &&& post == self.issued(owner, post.api_key.data.created_at)
                }
            },
        }
    }

    /// Tests the rules, given the canonical addresses.
    pub fn check(&self, expected_plan: Option<Pubkey>, expected_role: Option<Pubkey>) -> (r: Result<
        (),
        GatekeeperError,
    >)
        ensures
            r == match self.refusal(view_of(expected_plan), view_of(expected_role)) {
                Some(reason) => Err::<(), GatekeeperError>(reason),
                None => Ok(()),
            },
    {
        assert_authority(&self.global_state, &self.authority)?;
        match expected_plan {
            Some(plan) => {
                proof {
                    plan.lemma_equal_by_view(self.usage_plan.key);
                }
                if plan != self.usage_plan.key {
                    return Err(GatekeeperError::InvalidPlanOrRole);
                }
            },
            None => {
                return Err(GatekeeperError::InvalidPlanOrRole);
            },
        }
        match expected_role {
            Some(role) => {
                proof {
                    role.lemma_equal_by_view(self.role.key);
                }
                if role != self.role.key {
                    return Err(GatekeeperError::InvalidPlanOrRole);
                }
            },
            None => {
                return Err(GatekeeperError::InvalidPlanOrRole);
            },
        }
        Ok(())
    }
}

/// Issues a key to `owner` at the time `now`, where `expected_plan` and
/// `expected_role` are the canonical addresses of the plan and the role that
/// the caller named by number.
pub fn issue_key_at(
    ctx: &mut IssueKey,
    owner: Pubkey,
    expected_plan: Option<Pubkey>,
    expected_role: Option<Pubkey>,
    now: i64,
) -> (r: Result<(), GatekeeperError>)
    ensures
        match old(ctx).refusal(view_of(expected_plan), view_of(expected_role)) {
            Some(reason) => r == Err::<(), GatekeeperError>(reason) && *final(ctx) == *old(ctx),
            None => r == Ok::<(), GatekeeperError>(()) && *final(ctx) == old(ctx).issued(
                owner,
                now,
            ),
        },
        r is Ok ==> final(ctx).api_key.data.wf() && !final(ctx).api_key.data.is_revoked(),
{
    ctx.check(expected_plan, expected_role)?;
    ctx.api_key.data = ApiKey {
        owner,
        plan: ctx.usage_plan.key(),
        role: ctx.role.key(),
        status: KEY_STATUS_ACTIVE,
        window_start: 0,
        count: 0,
        created_at: now,
    };
    Ok(())
}

/// Issues a key to `owner`, bound to the plan `plan_id` and the role
/// `role_id`, at the time that the clock gives. The supplied plan and role
/// records must be stored at the canonical addresses of those numbers. The
/// clock is read only when the request breaks no rule.
pub fn handler(ctx: &mut IssueKey, owner: Pubkey, plan_id: u64, role_id: u64) -> (r: Result<
    (),
    InstructionError,
>)
    ensures
        old(ctx).requested(owner, plan_id, role_id, *final(ctx), r),
        !is_authority(old(ctx).global_state, old(ctx).authority) ==> r == Err::<
            (),
            InstructionError,
        >(InstructionError::Policy(GatekeeperError::Unauthorized)),
        is_authority(old(ctx).global_state, old(ctx).authority) && (spec_plan_address(plan_id)
            != Some(old(ctx).usage_plan.key@) || spec_role_address(role_id) != Some(
            old(ctx).role.key@,
        )) ==> r == Err::<(), InstructionError>(
            InstructionError::Policy(GatekeeperError::InvalidPlanOrRole),
        ),
        r is Err ==> *final(ctx) == *old(ctx),
{
    let expected_plan = plan_address(plan_id);
    let expected_role = role_address(role_id);
    match ctx.check(expected_plan, expected_role) {
        Err(reason) => Err(InstructionError::Policy(reason)),
        Ok(()) => match unix_timestamp() {
            Err(_) => Err(InstructionError::ClockUnavailable),
            Ok(now) => InstructionError::from_policy(
                issue_key_at(ctx, owner, expected_plan, expected_role, now),
            ),
        },
    }
}

} // verus!
