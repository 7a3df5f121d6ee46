//! A logical-tick scheduler for the periodic maintenance actions of a
//! replicated storage node.
//!
//! Instead of consulting wall-clock time, a driver loop advances a
//! monotonically increasing tick counter once per iteration and asks, for each
//! periodic action it owns, whether the current tick is the one at which that
//! action is due. Two scopes share the one mechanism: a replica-scope
//! scheduler tracks the actions of a single replicated unit, and a node-scope
//! scheduler tracks the actions of the node as a whole.

pub mod config;
pub mod ticker;
