//! The decision logic of OpenShard: a framework that hosts web services on
//! volunteered machines behind a public front door.
//!
//! Every module here is pure: it holds the data, the rules and the text formats,
//! and hands out the actions that the programs around it perform.
pub mod clock;
pub mod haproxy;
pub mod http;
pub mod ids;
pub mod mesh;
pub mod promises;
pub mod proto;
pub mod registrar;
pub mod text;
pub mod tunnel;
