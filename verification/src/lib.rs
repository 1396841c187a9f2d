//! Manage named AWS EC2 instances: the rules of the tool, verified.
pub mod cmdline;
pub mod commands;
pub mod dates;
pub mod ec2_wrapper;
pub mod error;
pub mod grammar;
pub mod json;
pub mod model;
pub mod profile;
pub mod search;
pub mod text;
pub mod util;
