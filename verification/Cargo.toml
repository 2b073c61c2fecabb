[package]
name = "slicing_server"
version = "0.1.0"
edition = "2021"
publish = false

[dependencies]
async-graphql = "5"
async-graphql-axum = "5"
axum = "0.6"
bs58 = "0.5"
cgmath = "0.18"
chrono = "0.4"
clap = { version = "4", features = ["derive"] }
dashmap = "5"
directories = "5"
eyre = "0.6"
futures-util = "0.3"
genawaiter = { version = "0.99", features = ["futures03"] }
hyper = { version = "0.14", features = ["server", "stream"] }
jwt-simple = "0.11"
lazy_static = "1"
nanoid = "0.4"
nix = "0.26"
reqwest = { version = "0.11", default-features = false, features = ["json", "stream"] }
serde = { version = "1", features = ["derive"] }
serde_json = "1"
tempfile = "3"
tokio = { version = "1", features = ["full"] }
toml = "0.7"
tracing = "0.1"
tracing-subscriber = { version = "0.3", features = ["env-filter"] }
