//! Decision logic of a connectivity probe for RPKI route-origin validation.
//!
//! A run draws one random identifier, resolves it against two base URLs,
//! probes both targets and combines the two outcomes into a verdict. The
//! network traffic itself belongs to the caller; this crate holds the rules.

pub mod config;
pub mod identifier;
pub mod probe;
pub mod target;
pub mod verdict;
