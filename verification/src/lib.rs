//! Command construction and result aggregation for driving the `kcl`
//! command-line tool from a host shell.

pub mod failure;
pub mod host;
pub mod invocation;
pub mod report;
pub mod runner;
pub mod text;
pub mod validator;
