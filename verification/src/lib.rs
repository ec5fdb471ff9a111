//! A small DAO core: members register with reputation scores, submit
//! proposals, and vote, gated by a fair-score eligibility window.
//!
//! The whole state lives in [`dao::Dao`]; each entry point is a verified
//! transition on it, specified by a matching spec-level transition on
//! [`dao::DaoData`].

pub mod dao;
pub mod error;
pub mod laws;
pub mod state;
