//! The reverse tunnel: visitors reach a volunteer behind a firewall through a
//! connection that the volunteer itself has opened.
pub mod client;
pub mod server;
