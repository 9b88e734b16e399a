//! A registry of short alphanumeric prefixes: fee escrow, verifier approval
//! and the lifecycle of each registered prefix.

pub mod admin;
pub mod constants;
pub mod errors;
pub mod laws;
pub mod lifecycle;
pub mod registry;
pub mod state;
pub mod utils;
