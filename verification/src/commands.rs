//! One handler for each command of the tool.
pub mod create;
pub mod destroy;
pub mod list;
pub mod list_amis;
pub mod list_security_groups;
pub mod ssh;
pub mod start;
pub mod stop;
