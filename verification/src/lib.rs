pub mod boot_state;
pub mod boot_tx;
pub mod checksum;
pub mod codec;
pub mod digest;
pub mod install_policy;
pub mod io;
pub mod key_policy_tx;
pub mod layout;
pub mod ledger;
pub mod maintenance_audit;
pub mod maintenance_audit_tx;
pub mod maintenance_execution;
pub mod maintenance_execution_tx;
pub mod maintenance_plan;
pub mod maintenance_plan_tx;
pub mod maintenance_step;
pub mod maintenance_step_tx;
pub mod manifest_state;
pub mod manifest_tx;
pub mod memory;
pub mod package;
pub mod record;
pub mod signed_plan;
pub mod signed_plan_tx;
pub mod superblock;
