//! Verified planner for post-install package configuration.
//!
//! Given a finalized system configuration (selected packages, target
//! username, proxy credentials), the library computes the exact sequence
//! of configuration actions to perform: lines to append to policy files,
//! files to move, repositories to clone, services to enable.  Every
//! planning function carries a contract that pins the produced actions
//! down completely.  Carrying the actions out (spawning processes,
//! touching the filesystem) is left to an unverified driver, which walks
//! the plan through the [`executor::Executor`] state machine.

pub mod action;
pub mod config;
pub mod configurator;
pub mod executor;
pub mod model;
pub mod text;
