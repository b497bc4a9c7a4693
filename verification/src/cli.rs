//! The command-line client: profiles, connection choice and the rules
//! behind its listings.
pub mod profile;
pub mod utils;
pub mod args;
pub mod api;
pub mod commands;
