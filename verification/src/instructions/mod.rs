//! The operations of the engine, one per file.

pub mod consume;
pub mod create_plan;
pub mod initialize;
pub mod issue_key;
pub mod revoke_key;
pub mod toggle_plan;
pub mod upsert_role;

pub use consume::Consume;
pub use create_plan::CreatePlan;
pub use initialize::{Initialize, InitializeBumps};
pub use issue_key::IssueKey;
pub use revoke_key::RevokeKey;
pub use toggle_plan::TogglePlan;
pub use upsert_role::UpsertRole;
