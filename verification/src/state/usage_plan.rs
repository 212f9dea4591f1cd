use vstd::prelude::*;
use crate::constants::ACCOUNT_DISCRIMINATOR_LEN;

verus! {

/// A rate-limit policy: a window length, a quota and a switch.
#[derive(Clone, Copy, Debug, PartialEq, Eq)]
pub struct UsagePlan {
    /// The numeric identifier under which the plan was created.
    pub plan_id: u64,
    /// Length of a counting window, in seconds.
    pub window_seconds: u64,
    /// How many consumptions one window admits.
    pub max_per_window: u64,
    /// While false, no key bound to the plan may consume.
    pub is_active: bool,
}

impl UsagePlan {
    /// Bytes that the stored record takes.
    pub const SPACE: usize = ACCOUNT_DISCRIMINATOR_LEN + 8 + 8 + 8 + 1;
}

} // verus!
