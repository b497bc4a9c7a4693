//! Types shared by the server, the workers and the command-line client.
pub mod models;
pub mod payloads;
pub mod responses;
pub mod messages;
