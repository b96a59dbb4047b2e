//! The mesh: a broker hands requests to agents over streams that the agents hold
//! open, and hands their answers back.
pub mod agent;
pub mod broker;
pub mod messages;
pub mod nodes;
