[package]
name = "aur_build"
version = "0.1.0"
edition = "2021"
publish = false

[dependencies]
chrono = "0.4"
serde = { version = "1", features = ["derive"] }
serde_json = "1"
tokio = { version = "1", features = ["rt-multi-thread", "macros", "fs", "sync", "time", "process"] }
actix-web = { version = "4", default-features = false, features = ["macros"] }
actix-ws = "0.3"
actix-multipart = "0.7"
clap = { version = "4", features = ["derive"] }
reqwest = { version = "0.12", default-features = false, features = ["blocking", "json", "rustls-tls"] }
diesel = { version = "2", default-features = false, features = ["sqlite", "returning_clauses_for_sqlite_3_35"] }
log = "0.4"
simplelog = "0.12"
cli-table = "0.4"
colored = "2"
dialoguer = "0.11"
homedir = "0.3"
futures-util = "0.3"
anyhow = "1"
