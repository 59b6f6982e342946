[package]
name = "parity_orchestrator"
version = "0.1.0"
edition = "2021"
publish = false

[dependencies]
byteorder = "1"
chrono = "0.4"
hex = "0.4"
urlparse = "0.7"
serde = { version = "1", features = ["derive"] }
clap = "2"
config = "0.9"
slog = "2"
slog-term = "2"
slog-async = "2"
reqwest = { version = "0.9", default-features = false }
jsonrpc-client-core = "0.5"
jsonrpc-client-http = { version = "0.5", default-features = false }
