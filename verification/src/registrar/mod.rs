//! The registrar: which volunteers there are, how fit they are, and which service
//! each of them runs.
pub mod churn;
pub mod db;
pub mod dispatch;
pub mod enrollment;
pub mod laws;
pub mod recovery;
pub mod services;
pub mod state;
