//! The reconcilers: what has to change so that the platform agrees with the
//! directory and with the settings that every group and project should have.

pub mod change;
pub mod members;
pub mod protection;
pub mod settings;
pub mod description;
pub mod executor;
pub mod correlation;
pub mod walker;
pub mod units;
pub mod idempotence;
pub mod laws;
