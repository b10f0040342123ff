[package]
name = "delila"
version = "0.1.0"
edition = "2021"
publish = false

[dependencies]
serde = { version = "1", features = ["derive"] }
serde_json = "1"
ws = "0.9"
slog = "2"
slog-term = "2"
slog-async = "2"
futures = "0.1"
futures-cpupool = "0.1"
chrono = "0.4"
app_dirs = "1"
