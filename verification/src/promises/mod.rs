//! What the operations are for, in plain numbers and texts.
//!
//! Each law here takes what a contract promises of an operation and says what follows
//! for its inputs and its results alone, without the functions that the contract is
//! written with. [`calls`] does so for the calls themselves: whatever a call gives back,
//! the law holds of it.
pub mod calls;
pub mod mesh;
pub mod names;
pub mod proxy;
pub mod records;
pub mod registrar;
pub mod texts;
pub mod times;
pub mod tunnel;
