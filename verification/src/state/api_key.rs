use vstd::prelude::*;
use crate::constants::{ACCOUNT_DISCRIMINATOR_LEN, KEY_STATUS_ACTIVE, KEY_STATUS_REVOKED};
use crate::errors::GatekeeperError;
use crate::pubkey::Pubkey;
use crate::state::usage_plan::UsagePlan;

verus! {

/// A credential: it binds an owner to one plan and one role, and carries
/// the counters of the current window.
#[derive(Clone, Copy, Debug, PartialEq, Eq)]
pub struct ApiKey {
    /// The holder of the credential.
    pub owner: Pubkey,
    /// Address of the usage plan that meters the key.
    pub plan: Pubkey,
    /// Address of the role whose capability bits the key may use.
    pub role: Pubkey,
    /// `KEY_STATUS_ACTIVE` or `KEY_STATUS_REVOKED`.
    pub status: u8,
    /// Second at which the current window began; 0 while the key was never
    /// used.
    pub window_start: i64,
    /// Consumptions recorded in the current window.
    pub count: u64,
    /// Second at which the key was issued.
    pub created_at: i64,
}

impl ApiKey {
    /// Bytes that the stored record takes.
    pub const SPACE: usize = ACCOUNT_DISCRIMINATOR_LEN + 32 + 32 + 32 + 1 + 8 + 8 + 8;

    /// The status is one of the two that the engine writes.
    pub open spec fn wf(&self) -> bool {
        self.status == KEY_STATUS_ACTIVE || self.status == KEY_STATUS_REVOKED
    }

    /// Whether the key was revoked.
    pub open spec fn is_revoked(&self) -> bool {
        self.status == KEY_STATUS_REVOKED
    }

    /// Start and count of the window that is in force at `now`. A key that
    /// was never used begins its first window at `now`. A window that began
    /// `window_seconds` ago or earlier has ended: a new, empty one begins at
    /// `now`.
    pub open spec fn window_at(&self, window_seconds: u64, now: i64) -> (i64, u64) {
        let start = if self.window_start == 0 {
            now
        } else {
            self.window_start
        };
        if now >= start + window_seconds {
            (now, 0)
        } else {
            (start, self.count)
        }
    }

    /// Counts one use of the key at `now` against `usage_plan`: the fixed
    /// window with lazy reset. A use is admitted while the window in force
    /// holds fewer uses than the plan allows; it then moves the key into
    /// that window and counts one more. A use that is not admitted is
    /// `RateLimitExceeded` and writes nothing, so a window that has ended is
    /// not reset by it.
    pub fn record_use(&mut self, usage_plan: &UsagePlan, now: i64) -> (r: Result<
        (),
        GatekeeperError,
    >)
        ensures
            ({
                let window = old(self).window_at(usage_plan.window_seconds, now);
                if window.1 < usage_plan.max_per_window {
                    &&& r == Ok::<(), GatekeeperError>(())
                    &&& *final(self) == (ApiKey {
                        window_start: window.0,
                        count: (window.1 + 1) as u64,
                        ..*old(self)
                    })
                } else {
                    &&& r == Err::<(), GatekeeperError>(GatekeeperError::RateLimitExceeded)
                    &&& *final(self) == *old(self)
                }
            }),
    {
        let start = if self.window_start == 0 {
            now
        } else {
            self.window_start
        };
        let elapsed = now as i128 >= start as i128 + usage_plan.window_seconds as i128;
        let window_start = if elapsed {
            now
        } else {
            start
        };
        let count = if elapsed {
            0
        } else {
            self.count
        };
        if count >= usage_plan.max_per_window {
            return Err(GatekeeperError::RateLimitExceeded);
        }
        self.window_start = window_start;
        self.count = count + 1;
        Ok(())
    }
}

} // verus!
