//! Creating or replacing a role.

use vstd::prelude::*;
use vstd::utf8::encode_utf8;
use crate::accounts::{Account, Signer};
use crate::errors::GatekeeperError;
use crate::helpers::{assert_authority, authority_verdict, fixed_name, to_fixed_name};
use crate::state::{GlobalState, Role};

verus! {

/// The records that writing a role touches. Only `role` is written.
#[derive(Clone, Copy, Debug, PartialEq, Eq)]
pub struct UpsertRole {
    /// The caller.
    pub authority: Signer,
    /// The configuration of the deployment.
    pub global_state: Account<GlobalState>,
    /// The place of the role: a record that exists, or one that the store
    /// has just created.
    pub role: Account<Role>,
}

impl UpsertRole {
    /// The records after the role was written.
    pub open spec fn upserted(&self, role: Role) -> UpsertRole {
        UpsertRole { role: Account { key: self.role.key, data: role }, ..*self }
    }
}

/// Writes the role `role_id` with the given name and capability bits,
/// whatever the record held before. The name is stored in its fixed form.
pub fn handler(ctx: &mut UpsertRole, role_id: u64, name: String, scopes_bitmask: u64) -> (r: Result<
    (),
    GatekeeperError,
>)
    ensures
        r == authority_verdict(old(ctx).global_state, old(ctx).authority),
        *final(ctx) == if r is Ok {
            old(ctx).upserted(
                Role { role_id, name: final(ctx).role.data.name, scopes_bitmask },
            )
        } else {
            *old(ctx)
        },
        r is Ok ==> final(ctx).role.data.name@ == fixed_name(encode_utf8(name@)),
{
    assert_authority(&ctx.global_state, &ctx.authority)?;
    ctx.role.data.role_id = role_id;
    ctx.role.data.name = to_fixed_name(name);
    ctx.role.data.scopes_bitmask = scopes_bitmask;
    Ok(())
}

} // verus!
