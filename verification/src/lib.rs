//! An access-control and rate-limiting gatekeeper.
//!
//! Given a credential, the engine decides whether a requested operation is
//! permitted, and keeps a counter of requests for each credential within a
//! fixed time window.

use vstd::prelude::*;

pub mod accounts;
pub mod address;
mod clock;
pub mod constants;
pub mod errors;
pub mod guarantees;
pub mod helpers;
pub mod instructions;
pub mod pubkey;
pub mod state;

pub use crate::errors::{GatekeeperError, InstructionError};
pub use crate::instructions::{
    Consume, CreatePlan, Initialize, IssueKey, RevokeKey, TogglePlan, UpsertRole,
};
pub use crate::pubkey::Pubkey;
pub use crate::state::{ApiKey, GlobalState, Role, UsagePlan};

use crate::address::{spec_plan_address, spec_role_address};
use crate::helpers::{authority_verdict, fixed_name, is_authority};
use vstd::utf8::encode_utf8;

verus! {

/// The address of this program, in bytes. In base 58 it reads
/// `9E2niqsSRf2GspkTvFE927shX6D1V27TRdxB4cA2YJaj`.
pub const ID: [u8; 32] = [
    122, 52, 17, 102, 64, 229, 185, 154, 94, 205, 178, 225, 218, 119, 46, 204,
    71, 239, 205, 212, 91, 221, 32, 58, 40, 198, 84, 139, 84, 192, 235, 208,
];

/// The address of this program.
pub open spec fn spec_id() -> Pubkey {
    Pubkey { bytes: ID }
}

/// The address of this program.
#[verifier::when_used_as_spec(spec_id)]
pub fn id() -> (program: Pubkey)
    ensures
        program == spec_id(),
{
    Pubkey { bytes: ID }
}

/// Whether `id` is the address of this program.
pub fn check_id(id: &Pubkey) -> (same: bool)
    ensures
        same == (*id == spec_id()),
{
    *id == self::id()
}

/// Records `authority` as the principal of all administrative operations.
/// Only that principal itself may ask for it.
pub fn initialize(ctx: &mut Initialize, authority: Pubkey) -> (r: Result<(), GatekeeperError>)
    ensures
        r == if old(ctx).authority.key == authority {
            Ok::<(), GatekeeperError>(())
        } else {
            Err::<(), GatekeeperError>(GatekeeperError::Unauthorized)
        },
        *final(ctx) == if r is Ok {
            old(ctx).initialized(authority)
        } else {
            *old(ctx)
        },
{
    instructions::initialize::handler(ctx, authority)
}

/// Writes a new usage plan with the given values, none of which is refused.
/// Only the authority may ask for it.
pub fn create_plan(
    ctx: &mut CreatePlan,
    plan_id: u64,
    window_seconds: u64,
    max_per_window: u64,
    is_active: bool,
) -> (r: Result<(), GatekeeperError>)
    ensures
        r == authority_verdict(old(ctx).global_state, old(ctx).authority),
        *final(ctx) == if r is Ok {
            old(ctx).created(UsagePlan { plan_id, window_seconds, max_per_window, is_active })
        } else {
            *old(ctx)
        },
{
    instructions::create_plan::handler(ctx, plan_id, window_seconds, max_per_window, is_active)
}

/// Flips `is_active` of the plan. Only the authority may ask for it.
pub fn toggle_plan(ctx: &mut TogglePlan, _plan_id: u64) -> (r: Result<(), GatekeeperError>)
    ensures
        r == authority_verdict(old(ctx).global_state, old(ctx).authority),
        *final(ctx) == if r is Ok {
            old(ctx).toggled()
        } else {
            *old(ctx)
        },
{
    instructions::toggle_plan::handler(ctx, _plan_id)
}

/// Writes the role `role_id` with the given name, in its fixed form, and
/// capability bits, whatever the record held before. Only the authority may
/// ask for it.
pub fn upsert_role(ctx: &mut UpsertRole, role_id: u64, name: String, scopes_bitmask: u64) -> (r:
    Result<(), GatekeeperError>)
    ensures
        r == authority_verdict(old(ctx).global_state, old(ctx).authority),
        *final(ctx) == if r is Ok {
            old(ctx).upserted(
                Role { role_id, name: final(ctx).role.data.name, scopes_bitmask },
            )
        } else {
            *old(ctx)
        },
        r is Ok ==> final(ctx).role.data.name@ == fixed_name(encode_utf8(name@)),
{
    instructions::upsert_role::handler(ctx, role_id, name, scopes_bitmask)
}

/// Issues an active, unused key to `owner`, bound to the supplied plan and
/// role, which must be the canonical records of `plan_id` and `role_id`.
/// Only the authority may ask for it.
pub fn issue_key(ctx: &mut IssueKey, owner: Pubkey, plan_id: u64, role_id: u64) -> (r: Result<
    (),
    InstructionError,
>)
    ensures
        old(ctx).requested(owner, plan_id, role_id, *final(ctx), r),
        !is_authority(old(ctx).global_state, old(ctx).authority) ==> r == Err::<
            (),
            InstructionError,
        >(InstructionError::Policy(GatekeeperError::Unauthorized)),
        is_authority(old(ctx).global_state, old(ctx).authority) && (spec_plan_address(plan_id)
            != Some(old(ctx).usage_plan.key@) || spec_role_address(role_id) != Some(
            old(ctx).role.key@,
        )) ==> r == Err::<(), InstructionError>(
            InstructionError::Policy(GatekeeperError::InvalidPlanOrRole),
        ),
        r is Err ==> *final(ctx) == *old(ctx),
{
    instructions::issue_key::handler(ctx, owner, plan_id, role_id)
}

/// Marks the key as revoked. Only the authority may ask for it.
pub fn revoke_key(ctx: &mut RevokeKey, _owner: Pubkey) -> (r: Result<(), GatekeeperError>)
    ensures
        r == authority_verdict(old(ctx).global_state, old(ctx).authority),
        *final(ctx) == if r is Ok {
            old(ctx).revoked()
        } else {
            *old(ctx)
        },
        r is Ok ==> final(ctx).api_key.data.is_revoked() && final(ctx).api_key.data.wf(),
        old(ctx).api_key.data.is_revoked() ==> final(ctx).api_key.data.is_revoked(),
{
    instructions::revoke_key::handler(ctx, _owner)
}

/// One consumption attempt with the presented key, at the time that the
/// clock gives. Anybody may ask for it: no caller is named, and none is
/// checked.
pub fn consume(ctx: &mut Consume, required_scopes_mask: u64) -> (r: Result<(), InstructionError>)
    ensures
        old(ctx).attempted(required_scopes_mask, *final(ctx), r),
        old(ctx).refusal(required_scopes_mask) matches Some(reason) ==> r == Err::<
            (),
            InstructionError,
        >(InstructionError::Policy(reason)),
        r is Err ==> *final(ctx) == *old(ctx),
{
    instructions::consume::handler(ctx, required_scopes_mask)
}

} // verus!
