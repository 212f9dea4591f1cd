//! The four kinds of record that the engine reads and writes.

pub mod api_key;
pub mod global_state;
pub mod role;
pub mod usage_plan;

pub use api_key::ApiKey;
pub use global_state::GlobalState;
pub use role::Role;
pub use usage_plan::UsagePlan;
