use gatekeeper::accounts::{Account, Signer};
use gatekeeper::constants::{KEY_STATUS_ACTIVE, KEY_STATUS_REVOKED};
use gatekeeper::errors::{GatekeeperError, InstructionError};
use gatekeeper::helpers::assert_authority;
use gatekeeper::instructions::consume::{consume_at, Consume};
use gatekeeper::instructions::issue_key::issue_key_at;
use gatekeeper::instructions::{
    CreatePlan, Initialize, InitializeBumps, IssueKey, RevokeKey, TogglePlan, UpsertRole,
};
use gatekeeper::pubkey::Pubkey;
use gatekeeper::state::{ApiKey, GlobalState, Role, UsagePlan};

fn address(tag: u8) -> Pubkey {
    Pubkey { bytes: [tag; 32] }
}

const ADMIN: u8 = 0xA0;
const STRANGER: u8 = 0xB0;

fn global_state() -> Account<GlobalState> {
    Account { key: address(0x10), data: GlobalState { authority: address(ADMIN), bump: 254 } }
}

fn plan(is_active: bool) -> Account<UsagePlan> {
    Account {
        key: address(0x20),
        data: UsagePlan { plan_id: 5, window_seconds: 60, max_per_window: 3, is_active },
    }
}

fn role() -> Account<Role> {
    Account { key: address(0x30), data: Role { role_id: 8, name: [0; 32], scopes_bitmask: 0b0110 } }
}

fn blank_key() -> Account<ApiKey> {
    Account {
        key: address(0x40),
        data: ApiKey {
            owner: address(0),
            plan: address(0),
            role: address(0),
            status: 0,
            window_start: 0,
            count: 0,
            created_at: 0,
        },
    }
}

fn used_key() -> Account<ApiKey> {
    Account {
        key: address(0x40),
        data: ApiKey {
            owner: address(0x50),
            plan: address(0x20),
            role: address(0x30),
            status: KEY_STATUS_ACTIVE,
            window_start: 100,
            count: 2,
            created_at: 90,
        },
    }
}

#[test]
fn assert_authority_admits_the_authority_only() {
    let state = global_state();
    assert_eq!(assert_authority(&state, &Signer { key: address(ADMIN) }), Ok(()));
    assert_eq!(
        assert_authority(&state, &Signer { key: address(STRANGER) }),
        Err(GatekeeperError::Unauthorized)
    );
    let mut almost = address(ADMIN);
    almost.bytes[31] ^= 1;
    assert_eq!(
        assert_authority(&state, &Signer { key: almost }),
        Err(GatekeeperError::Unauthorized)
    );
}

#[test]
fn initialize_records_authority_and_bump() {
    let mut ctx = Initialize {
        authority: Signer { key: address(ADMIN) },
        global_state: Account {
            key: address(0x10),
            data: GlobalState { authority: address(0), bump: 0 },
        },
        bumps: InitializeBumps { global_state: 253 },
    };
    assert_eq!(gatekeeper::initialize(&mut ctx, address(ADMIN)), Ok(()));
    assert_eq!(ctx.global_state.data, GlobalState { authority: address(ADMIN), bump: 253 });
    assert_eq!(ctx.global_state.key, address(0x10));
    assert_eq!(ctx.authority, Signer { key: address(ADMIN) });
    assert_eq!(ctx.bumps, InitializeBumps { global_state: 253 });
}

#[test]
fn initialize_for_someone_else_is_unauthorized() {
    let mut ctx = Initialize {
        authority: Signer { key: address(STRANGER) },
        global_state: Account {
            key: address(0x10),
            data: GlobalState { authority: address(0), bump: 0 },
        },
        bumps: InitializeBumps { global_state: 253 },
    };
    let before = ctx;
    assert_eq!(
        gatekeeper::instructions::initialize::handler(&mut ctx, address(ADMIN)),
        Err(GatekeeperError::Unauthorized)
    );
    assert_eq!(ctx, before);
}

#[test]
fn create_plan_writes_the_values_as_given() {
    let mut ctx = CreatePlan {
        authority: Signer { key: address(ADMIN) },
        global_state: global_state(),
        usage_plan: Account {
            key: address(0x20),
            data: UsagePlan { plan_id: 0, window_seconds: 0, max_per_window: 0, is_active: false },
        },
    };
    assert_eq!(gatekeeper::create_plan(&mut ctx, 5, 60, 3, true), Ok(()));
    assert_eq!(
        ctx.usage_plan.data,
        UsagePlan { plan_id: 5, window_seconds: 60, max_per_window: 3, is_active: true }
    );
    assert_eq!(ctx.usage_plan.key, address(0x20));
    assert_eq!(ctx.global_state, global_state());
}

#[test]
fn create_plan_accepts_zero_window_and_zero_quota() {
    let mut ctx = CreatePlan {
        authority: Signer { key: address(ADMIN) },
        global_state: global_state(),
        usage_plan: plan(true),
    };
    assert_eq!(
        gatekeeper::instructions::create_plan::handler(&mut ctx, u64::MAX, 0, 0, false),
        Ok(())
    );
    assert_eq!(
        ctx.usage_plan.data,
        UsagePlan { plan_id: u64::MAX, window_seconds: 0, max_per_window: 0, is_active: false }
    );
}

#[test]
fn toggle_plan_flips_the_switch_and_nothing_else() {
    let mut ctx = TogglePlan {
        authority: Signer { key: address(ADMIN) },
        global_state: global_state(),
        usage_plan: plan(true),
    };
    assert_eq!(gatekeeper::toggle_plan(&mut ctx, 5), Ok(()));
    assert_eq!(ctx.usage_plan, plan(false));
    assert_eq!(gatekeeper::instructions::toggle_plan::handler(&mut ctx, 5), Ok(()));
    assert_eq!(ctx.usage_plan, plan(true));
    // The number is not read again.
    assert_eq!(gatekeeper::toggle_plan(&mut ctx, 77), Ok(()));
    assert_eq!(ctx.usage_plan, plan(false));
}

#[test]
fn upsert_role_creates_and_replaces() {
    let mut ctx = UpsertRole {
        authority: Signer { key: address(ADMIN) },
        global_state: global_state(),
        role: Account {
            key: address(0x30),
            data: Role { role_id: 0, name: [0; 32], scopes_bitmask: 0 },
        },
    };
    assert_eq!(gatekeeper::upsert_role(&mut ctx, 8, "reader".to_string(), 0b0110), Ok(()));
    let mut name = [0u8; 32];
    name[..6].copy_from_slice(b"reader");
    assert_eq!(ctx.role.data, Role { role_id: 8, name, scopes_bitmask: 0b0110 });
    assert_eq!(ctx.role.key, address(0x30));
    assert_eq!(
        gatekeeper::instructions::upsert_role::handler(&mut ctx, 8, "rw".to_string(), u64::MAX),
        Ok(())
    );
    let mut shorter = [0u8; 32];
    shorter[..2].copy_from_slice(b"rw");
    assert_eq!(ctx.role.data, Role { role_id: 8, name: shorter, scopes_bitmask: u64::MAX });
}

#[test]
fn upsert_role_cuts_a_long_name() {
    let mut ctx = UpsertRole {
        authority: Signer { key: address(ADMIN) },
        global_state: global_state(),
        role: role(),
    };
    let long = "abcdefghijklmnopqrstuvwxyz0123456789".to_string();
    assert_eq!(gatekeeper::upsert_role(&mut ctx, 9, long, 1), Ok(()));
    assert_eq!(&ctx.role.data.name, b"abcdefghijklmnopqrstuvwxyz012345");
    assert_eq!(ctx.role.data.role_id, 9);
}

#[test]
fn revoke_key_sets_the_status_and_nothing_else() {
    let mut ctx = RevokeKey {
        authority: Signer { key: address(ADMIN) },
        global_state: global_state(),
        api_key: used_key(),
    };
    assert_eq!(gatekeeper::revoke_key(&mut ctx, address(0x50)), Ok(()));
    let mut expected = used_key();
    expected.data.status = KEY_STATUS_REVOKED;
    assert_eq!(ctx.api_key, expected);
    // Revoking again leaves the key revoked; the owner is not read again.
    assert_eq!(gatekeeper::instructions::revoke_key::handler(&mut ctx, address(0x51)), Ok(()));
    assert_eq!(ctx.api_key, expected);
}

#[test]
fn revocation_is_final() {
    let mut revoke = RevokeKey {
        authority: Signer { key: address(ADMIN) },
        global_state: global_state(),
        api_key: used_key(),
    };
    let mut ctx = Consume { api_key: revoke.api_key, usage_plan: plan(true), role: role() };
    assert_eq!(consume_at(&mut ctx, 0b0010, 110), Ok(()));
    revoke.api_key = ctx.api_key;
    assert_eq!(gatekeeper::revoke_key(&mut revoke, address(0x50)), Ok(()));
    ctx.api_key = revoke.api_key;
    let revoked = ctx;
    for now in [110, 111, 159, 160, 161, 100_000] {
        assert_eq!(consume_at(&mut ctx, 0b0010, now), Err(GatekeeperError::KeyRevoked));
        assert_eq!(consume_at(&mut ctx, 0, now), Err(GatekeeperError::KeyRevoked));
        assert_eq!(ctx, revoked);
    }
    assert_eq!(ctx.api_key.data.count, 3);
    assert_eq!(ctx.api_key.data.status, KEY_STATUS_REVOKED);
}

#[test]
fn strangers_are_unauthorized_everywhere() {
    let stranger = Signer { key: address(STRANGER) };

    let mut create =
        CreatePlan { authority: stranger, global_state: global_state(), usage_plan: plan(false) };
    let before = create;
    assert_eq!(
        gatekeeper::create_plan(&mut create, 1, 2, 3, true),
        Err(GatekeeperError::Unauthorized)
    );
    assert_eq!(create, before);

    let mut toggle =
        TogglePlan { authority: stranger, global_state: global_state(), usage_plan: plan(true) };
    let before = toggle;
    assert_eq!(gatekeeper::toggle_plan(&mut toggle, 5), Err(GatekeeperError::Unauthorized));
    assert_eq!(toggle, before);

    let mut upsert = UpsertRole { authority: stranger, global_state: global_state(), role: role() };
    let before = upsert;
    assert_eq!(
        gatekeeper::upsert_role(&mut upsert, 8, "admin".to_string(), u64::MAX),
        Err(GatekeeperError::Unauthorized)
    );
    assert_eq!(upsert, before);

    let mut revoke =
        RevokeKey { authority: stranger, global_state: global_state(), api_key: used_key() };
    let before = revoke;
    assert_eq!(
        gatekeeper::revoke_key(&mut revoke, address(0x50)),
        Err(GatekeeperError::Unauthorized)
    );
    assert_eq!(revoke, before);

    let mut issue = IssueKey {
        authority: stranger,
        global_state: global_state(),
        usage_plan: plan(true),
        role: role(),
        api_key: blank_key(),
    };
    let before = issue;
    assert_eq!(
        gatekeeper::issue_key(&mut issue, address(0x50), 5, 8),
        Err(InstructionError::Policy(GatekeeperError::Unauthorized))
    );
    assert_eq!(issue, before);
    assert_eq!(
        issue_key_at(
            &mut issue,
            address(0x50),
            Some(address(0x20)),
            Some(address(0x30)),
            1_000
        ),
        Err(GatekeeperError::Unauthorized)
    );
    assert_eq!(issue, before);
}

#[test]
fn issue_key_at_writes_a_fresh_active_key() {
    let mut ctx = IssueKey {
        authority: Signer { key: address(ADMIN) },
        global_state: global_state(),
        usage_plan: plan(true),
        role: role(),
        api_key: blank_key(),
    };
    ctx.api_key.data.count = 99;
    ctx.api_key.data.window_start = 99;
    ctx.api_key.data.status = KEY_STATUS_REVOKED;
    assert_eq!(
        issue_key_at(
            &mut ctx,
            address(0x50),
            Some(address(0x20)),
            Some(address(0x30)),
            1_234
        ),
        Ok(())
    );
    assert_eq!(
        ctx.api_key.data,
        ApiKey {
            owner: address(0x50),
            plan: address(0x20),
            role: address(0x30),
            status: KEY_STATUS_ACTIVE,
            window_start: 0,
            count: 0,
            created_at: 1_234,
        }
    );
    assert_eq!(ctx.api_key.key, address(0x40));
    assert_eq!(ctx.usage_plan, plan(true));
    assert_eq!(ctx.role, role());
}

#[test]
fn issue_key_at_refuses_records_that_are_not_canonical() {
    let mut ctx = IssueKey {
        authority: Signer { key: address(ADMIN) },
        global_state: global_state(),
        usage_plan: plan(true),
        role: role(),
        api_key: blank_key(),
    };
    let before = ctx;
    let cases = [
        (Some(address(0x21)), Some(address(0x30))),
        (Some(address(0x20)), Some(address(0x31))),
        (Some(address(0x30)), Some(address(0x20))),
        (None, Some(address(0x30))),
        (Some(address(0x20)), None),
        (None, None),
    ];
    for (expected_plan, expected_role) in cases {
        assert_eq!(
            issue_key_at(&mut ctx, address(0x50), expected_plan, expected_role, 7),
            Err(GatekeeperError::InvalidPlanOrRole)
        );
        assert_eq!(ctx, before);
    }
}

#[test]
fn issued_key_can_be_consumed() {
    let mut issue = IssueKey {
        authority: Signer { key: address(ADMIN) },
        global_state: global_state(),
        usage_plan: plan(true),
        role: role(),
        api_key: blank_key(),
    };
    assert_eq!(
        issue_key_at(&mut issue, address(0x50), Some(address(0x20)), Some(address(0x30)), 0),
        Ok(())
    );
    let mut ctx = Consume { api_key: issue.api_key, usage_plan: plan(true), role: role() };
    assert_eq!(consume_at(&mut ctx, 0b0100, 10), Ok(()));
    assert_eq!(ctx.api_key.data.count, 1);
    assert_eq!(ctx.api_key.data.window_start, 10);
    assert_eq!(ctx.api_key.data.created_at, 0);
}

#[test]
fn consume_names_no_caller() {
    // The records of a consumption hold no signer and no configuration:
    // whoever presents the key gets the same answer.
    let mut ctx = Consume { api_key: used_key(), usage_plan: plan(true), role: role() };
    assert_eq!(consume_at(&mut ctx, 0b0010, 120), Ok(()));
    assert_eq!(ctx.api_key.data.count, 3);
}

#[test]
fn inactive_plan_blocks_consumption_until_toggled() {
    let mut toggle = TogglePlan {
        authority: Signer { key: address(ADMIN) },
        global_state: global_state(),
        usage_plan: plan(true),
    };
    assert_eq!(gatekeeper::toggle_plan(&mut toggle, 5), Ok(()));
    let mut ctx = Consume { api_key: used_key(), usage_plan: toggle.usage_plan, role: role() };
    assert_eq!(consume_at(&mut ctx, 0, 120), Err(GatekeeperError::PlanInactive));
    assert_eq!(gatekeeper::toggle_plan(&mut toggle, 5), Ok(()));
    ctx.usage_plan = toggle.usage_plan;
    assert_eq!(consume_at(&mut ctx, 0, 120), Ok(()));
}
