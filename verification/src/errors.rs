//! Why an operation is refused.

use vstd::prelude::*;

verus! {

/// The reasons for which the policy engine refuses a request. Each is final
/// for the call in which it arises: the engine never retries.
#[derive(Clone, Copy, Debug, PartialEq, Eq, Structural, Hash)]
pub enum GatekeeperError {
    /// The caller is not the recorded authority.
    Unauthorized,
    /// The key was revoked.
    KeyRevoked,
    /// The plan of the key is switched off.
    PlanInactive,
    /// The role of the key lacks a required capability bit.
    InsufficientScopes,
    /// The quota of the current window is used up.
    RateLimitExceeded,
    /// A plan or role record is not the one that the key, or the numeric
    /// identifier, refers to.
    InvalidPlanOrRole,
}

impl GatekeeperError {
    /// The text shown for each reason.
    pub open spec fn spec_message(self) -> Seq<char> {
        match self {
            GatekeeperError::Unauthorized => "Caller is not the authority"@,
            GatekeeperError::KeyRevoked => "API key has been revoked"@,
            GatekeeperError::PlanInactive => "Usage plan is inactive"@,
            GatekeeperError::InsufficientScopes => "Missing required scope bits"@,
            GatekeeperError::RateLimitExceeded => "Rate limit exceeded for current window"@,
            GatekeeperError::InvalidPlanOrRole => "Referenced plan or role is invalid"@,
        }
    }

    /// The text shown for this reason.
    pub fn message(&self) -> (text: &'static str)
        ensures
            text@ == self.spec_message(),
    {
        match self {
            GatekeeperError::Unauthorized => "Caller is not the authority",
            GatekeeperError::KeyRevoked => "API key has been revoked",
            GatekeeperError::PlanInactive => "Usage plan is inactive",
            GatekeeperError::InsufficientScopes => "Missing required scope bits",
            GatekeeperError::RateLimitExceeded => "Rate limit exceeded for current window",
            GatekeeperError::InvalidPlanOrRole => "Referenced plan or role is invalid",
        }
    }
}

/// How an operation that reads the clock can fail: the engine refuses the
/// request, or the clock gives no reading.
#[derive(Clone, Copy, Debug, PartialEq, Eq, Structural, Hash)]
pub enum InstructionError {
    /// The engine refused the request, for the reason given.
    Policy(GatekeeperError),
    /// The request passed every check that needs no time, and the clock
    /// could not be read.
    ClockUnavailable,
}

impl InstructionError {
    /// The answer of the engine, as an operation that reads the clock gives
    /// it.
    pub open spec fn lift(answer: Result<(), GatekeeperError>) -> Result<(), InstructionError> {
        match answer {
            Ok(()) => Ok(()),
            Err(reason) => Err(InstructionError::Policy(reason)),
        }
    }

    /// The answer of the engine, as an operation that reads the clock gives
    /// it.
    pub fn from_policy(answer: Result<(), GatekeeperError>) -> (r: Result<(), InstructionError>)
        ensures
            r == InstructionError::lift(answer),
    {
        match answer {
            Ok(()) => Ok(()),
            Err(reason) => Err(InstructionError::Policy(reason)),
        }
    }
}

} // verus!
