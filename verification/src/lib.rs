//! Reconciliation of a group and project hierarchy against a directory of
//! identities: the decisions, the texts that report them, and the laws they obey.

pub mod args;
pub mod diff;
pub mod directory;
pub mod reconcile;
pub mod state;
pub mod text;
pub mod types;
pub mod util;
