//! What callers may rely on across calls: who may administer, the quota of
//! a window, the start of a new window, and the finality of revocation.

use vstd::prelude::*;
use crate::accounts::{Account, Signer};
use crate::errors::GatekeeperError;
use crate::helpers::authority_verdict;
use crate::instructions::consume::Consume;
use crate::state::{ApiKey, GlobalState, Role, UsagePlan};

verus! {

/// Administrative operations answer to the authority alone. Every one of
/// them gives the caller the answer `authority_verdict`: it is `Ok` for the
/// caller whose identity the configuration records, and `Unauthorized` for
/// every other.
pub proof fn lemma_only_the_authority_administers(
    global_state: Account<GlobalState>,
    caller: Signer,
)
    ensures
        caller.key == global_state.data.authority ==> authority_verdict(global_state, caller)
            == Ok::<(), GatekeeperError>(()),
        caller.key != global_state.data.authority ==> authority_verdict(global_state, caller)
            == Err::<(), GatekeeperError>(GatekeeperError::Unauthorized),
{
}

impl Consume {
    /// The records after consumption attempts at the given times, one after
    /// the other, each for the same scopes.
    pub open spec fn after_all(&self, required_scopes_mask: u64, times: Seq<i64>) -> Consume
        decreases times.len(),
    {
        if times.len() == 0 {
            *self
        } else {
            self.after_all(required_scopes_mask, times.drop_last()).after(
                required_scopes_mask,
                times.last(),
            )
        }
    }

    /// Whether the attempts at `times` fall into one window that the first
    /// of them finds empty: the window in force at `times[0]` holds no use
    /// yet, and every later attempt comes at or after its start and before
    /// it has lasted `window_seconds`.
    pub open spec fn in_one_window(&self, times: Seq<i64>) -> bool {
        &&& times.len() >= 1
        &&& self.first_window(times).1 == 0
        &&& forall|i: int|
            1 <= i < times.len() ==> self.first_window(times).0 <= #[trigger] times[i]
                < self.first_window(times).0 + self.usage_plan.data.window_seconds
    }

    /// Start and count of the window in force at the first of `times`.
    pub open spec fn first_window(&self, times: Seq<i64>) -> (i64, u64) {
        self.api_key.data.window_at(self.usage_plan.data.window_seconds, times[0])
    }

    /// An attempt writes nothing but the window start and the count of the
    /// key: owner, plan, role, status and time of issue stay as they are,
    /// and so do the plan and the role. So the rules that need no time say
    /// the same of any request before and after.
    pub proof fn lemma_attempt_writes_only_the_window(
        self,
        required_scopes_mask: u64,
        now: i64,
        later_mask: u64,
    )
        ensures
            self.after(required_scopes_mask, now) == (Consume {
                api_key: Account {
                    key: self.api_key.key,
                    data: ApiKey {
                        window_start: self.after(
                            required_scopes_mask,
                            now,
                        ).api_key.data.window_start,
                        count: self.after(required_scopes_mask, now).api_key.data.count,
                        ..self.api_key.data
                    },
                },
                ..self
            }),
            self.after(required_scopes_mask, now).refusal(later_mask) == self.refusal(later_mask),
    {
    }

    /// A rejected attempt, whatever the reason, leaves every record as it
    /// was: count and window start among them.
    pub proof fn lemma_rejection_changes_nothing(self, required_scopes_mask: u64, now: i64)
        requires
            self.verdict(required_scopes_mask, now) is Err,
        ensures
            self.after(required_scopes_mask, now) == self,
            self.after(required_scopes_mask, now).api_key.data.count == self.api_key.data.count,
            self.after(required_scopes_mask, now).api_key.data.window_start
                == self.api_key.data.window_start,
    {
    }

    /// The state within one window. After `n` attempts that fall into one
    /// window which the first found empty, with a request that the rules
    /// that need no time let pass, the count is `n`, or the plan's quota if
    /// `n` is more. The window start is not before that of the first
    /// window, and nothing else has changed.
    pub proof fn lemma_count_in_window(self, required_scopes_mask: u64, times: Seq<i64>)
        requires
            self.refusal(required_scopes_mask) is None,
            self.usage_plan.data.max_per_window >= 1,
            self.in_one_window(times),
        ensures
            ({
                let after = self.after_all(required_scopes_mask, times);
                &&& after == (Consume {
                    api_key: Account {
                        key: self.api_key.key,
                        data: ApiKey {
                            window_start: after.api_key.data.window_start,
                            count: if times.len() <= self.usage_plan.data.max_per_window {
                                times.len() as u64
                            } else {
                                self.usage_plan.data.max_per_window
                            },
                            ..self.api_key.data
                        },
                    },
                    ..self
                })
                &&& after.api_key.data.window_start >= self.first_window(times).0
            }),
        decreases times.len(),
    {
        if times.len() == 1 {
            assert(times.drop_last().len() == 0);
            assert(self.after_all(required_scopes_mask, times.drop_last()) == self);
        } else {
            self.lemma_earlier_in_one_window(times);
            self.lemma_count_in_window(required_scopes_mask, times.drop_last());
        }
    }

    /// Attempts that fall into one window still do when the last of them is
    /// left out.
    proof fn lemma_earlier_in_one_window(self, times: Seq<i64>)
        requires
            self.in_one_window(times),
            times.len() > 1,
        ensures
            self.in_one_window(times.drop_last()),
            self.first_window(times.drop_last()) == self.first_window(times),
    {
        let earlier = times.drop_last();
        assert(earlier[0] == times[0]);
        assert forall|i: int| 1 <= i < earlier.len() implies self.first_window(earlier).0
            <= #[trigger] earlier[i] < self.first_window(earlier).0
            + self.usage_plan.data.window_seconds by {
            assert(earlier[i] == times[i]);
        }
    }

    /// The quota of a window is granted in full and no further. With a plan
    /// that allows `N >= 1` consumptions, a request that the rules that need
    /// no time let pass, and attempts that fall into one window which the
    /// first found empty: each of the first `N` attempts is admitted, the
    /// `n`-th leaving the count `n`; the `N + 1`-th and every later one is
    /// `RateLimitExceeded` and leaves the count `N`.
    pub proof fn lemma_quota_is_exact(self, required_scopes_mask: u64, times: Seq<i64>)
        requires
            self.refusal(required_scopes_mask) is None,
            self.usage_plan.data.max_per_window >= 1,
            self.in_one_window(times),
        ensures
            ({
                let quota = self.usage_plan.data.max_per_window;
                let before = self.after_all(required_scopes_mask, times.drop_last());
                let after = self.after_all(required_scopes_mask, times);
                if times.len() <= quota {
                    &&& before.verdict(required_scopes_mask, times.last()) is Ok
                    &&& after.api_key.data.count == times.len()
                } else {
                    &&& before.verdict(required_scopes_mask, times.last()) == Err::<
                        (),
                        GatekeeperError,
                    >(GatekeeperError::RateLimitExceeded)
                    &&& after.api_key.data.count == quota
                    &&& after == before
                }
            }),
    {
        self.lemma_count_in_window(required_scopes_mask, times);
        if times.len() > 1 {
            self.lemma_earlier_in_one_window(times);
            self.lemma_count_in_window(required_scopes_mask, times.drop_last());
        } else {
            assert(times.drop_last().len() == 0);
            assert(self.after_all(required_scopes_mask, times.drop_last()) == self);
        }
    }

    /// Once a window has ended, the next attempt begins a new one. With a
    /// plan that allows at least one consumption and a request that the
    /// rules that need no time let pass, an attempt at or after
    /// `window_start + window_seconds` is admitted and leaves the count 1
    /// and the window start `now`, whatever the count was. A key whose
    /// window start is 0 counts as never used, so its count is not reset
    /// unless it is 0 already or the window has no length: that case is left
    /// out.
    pub proof fn lemma_new_window_after_expiry(self, required_scopes_mask: u64, now: i64)
        requires
            self.refusal(required_scopes_mask) is None,
            self.usage_plan.data.max_per_window >= 1,
            now >= self.api_key.data.window_start + self.usage_plan.data.window_seconds,
            !(self.api_key.data.window_start == 0 && self.api_key.data.count > 0
                && self.usage_plan.data.window_seconds > 0),
        ensures
            self.verdict(required_scopes_mask, now) is Ok,
            self.after(required_scopes_mask, now).api_key.data.count == 1,
            self.after(required_scopes_mask, now).api_key.data.window_start == now,
    {
    }

    /// An admitted attempt never takes the count past the plan's quota, and
    /// a rejected one leaves it where it was: a count within the quota stays
    /// within it.
    pub proof fn lemma_count_stays_within_quota(self, required_scopes_mask: u64, now: i64)
        ensures
            self.verdict(required_scopes_mask, now) is Ok ==> self.after(
                required_scopes_mask,
                now,
            ).api_key.data.count <= self.usage_plan.data.max_per_window,
            self.api_key.data.count <= self.usage_plan.data.max_per_window ==> self.after(
                required_scopes_mask,
                now,
            ).api_key.data.count <= self.usage_plan.data.max_per_window,
    {
    }

    /// A revoked key is refused as such, whatever plan, role, scopes and
    /// time come with it, and the attempt leaves it revoked.
    pub proof fn lemma_revoked_key_is_refused(self, required_scopes_mask: u64, now: i64)
        requires
            self.api_key.data.is_revoked(),
        ensures
            self.verdict(required_scopes_mask, now) == Err::<(), GatekeeperError>(
                GatekeeperError::KeyRevoked,
            ),
            self.after(required_scopes_mask, now) == self,
    {
    }
}

/// What a caller presents with a key when it asks to consume.
#[derive(Clone, Copy, Debug, PartialEq, Eq)]
pub struct Attempt {
    /// The plan that the caller names as the key's.
    pub usage_plan: Account<UsagePlan>,
    /// The role that the caller names as the key's.
    pub role: Account<Role>,
    /// The capability bits that the caller asks for.
    pub required_scopes_mask: u64,
    /// The time of the attempt.
    pub now: i64,
}

impl Attempt {
    /// The records of the attempt made with `api_key`.
    pub open spec fn with(&self, api_key: Account<ApiKey>) -> Consume {
        Consume { api_key, usage_plan: self.usage_plan, role: self.role }
    }
}

/// The key after the given attempts were made with it, one after the other.
pub open spec fn key_after(api_key: Account<ApiKey>, attempts: Seq<Attempt>) -> Account<ApiKey>
    decreases attempts.len(),
{
    if attempts.len() == 0 {
        api_key
    } else {
        let attempt = attempts.last();
        attempt.with(key_after(api_key, attempts.drop_last())).after(
            attempt.required_scopes_mask,
            attempt.now,
        ).api_key
    }
}

/// Revocation is final. Of any attempts made with a revoked key, whatever
/// plans, roles, scopes and times come with them, every one is refused as
/// `KeyRevoked`, and the key is the same after them all.
pub proof fn lemma_revocation_is_final(api_key: Account<ApiKey>, attempts: Seq<Attempt>)
    requires
        api_key.data.is_revoked(),
    ensures
        key_after(api_key, attempts) == api_key,
        forall|i: int|
            0 <= i < attempts.len() ==> (#[trigger] attempts[i]).with(
                key_after(api_key, attempts.take(i)),
            ).verdict(attempts[i].required_scopes_mask, attempts[i].now) == Err::<
                (),
                GatekeeperError,
            >(GatekeeperError::KeyRevoked),
    decreases attempts.len(),
{
    if attempts.len() > 0 {
        lemma_revocation_is_final(api_key, attempts.drop_last());
    }
    assert forall|i: int| 0 <= i < attempts.len() implies (#[trigger] attempts[i]).with(
        key_after(api_key, attempts.take(i)),
    ).verdict(attempts[i].required_scopes_mask, attempts[i].now) == Err::<(), GatekeeperError>(
        GatekeeperError::KeyRevoked,
    ) by {
        lemma_revocation_is_final(api_key, attempts.take(i));
    }
}

} // verus!
