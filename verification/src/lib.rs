//! Policy gate for a patch-applying command-line tool.
//!
//! The library holds everything the tool decides: how a command line is
//! interpreted, where the policy configuration lives, how the stored JSON
//! document is read back and written out, and what each invocation prints
//! and returns for every combination of mode and payload. File, environment
//! and process handling stay with the thin binary around it.

pub mod args;
pub mod config;
pub mod dispatch;
pub mod paths;
pub mod persist;
pub mod text;
