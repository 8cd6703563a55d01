//! Hardening checks for a machine under assessment: what each kind of check
//! asks of the machine, and how an observation of the machine decides whether
//! the check is met.
//!
//! The library never touches the machine. A caller asks a check which
//! [`probe::Probe`] it needs, carries the probe out, and hands the resulting
//! [`probe::Observation`] to [`check::Check::run_check`].

pub mod check;
pub mod checks_config;
pub mod models;
pub mod predicate;
pub mod probe;
pub mod reconcile;
pub mod text;
