//! The build server: its store, workers, orchestration and request rules.
pub mod text;
pub mod clock;
pub mod like;
pub mod package_store;
pub mod store_laws;
pub mod worker;
pub mod config;
pub mod repository;
pub mod orchestrator;
pub mod laws;
pub mod http;
pub mod repo;
pub mod multipart;
pub mod webhooks;
pub mod state;
