//! Stateful invariant fuzzing of the `onreapp` program: the plans of every action, the readers of
//! the accounts the program keeps, and the invariants that must hold after each step.

pub mod accounts;
pub mod actions;
pub mod bytes;
pub mod check;
pub mod check_laws;
pub mod context;
pub mod demands;
pub mod ed25519;
pub mod fixture;
pub mod handover;
pub mod instruction;
pub mod invariant_laws;
pub mod invariants;
pub mod keys;
pub mod laws;
pub mod log_laws;
pub mod plan_laws;
pub mod reading_laws;
pub mod registry;
pub mod scenarios;
pub mod setup;
pub mod setup_laws;
pub mod step_laws;
pub mod text;
pub mod text_laws;
pub mod token;
pub mod verdict_laws;

