[package]
name = "cc-sonde"
version = "0.1.0"
edition = "2021"
publish = false

[dependencies]
regex = "1"
base64 = "0.22"
percent-encoding = "2"
serde = { version = "1", features = ["derive"] }
serde_json = "1"
toml = "0.8"
tokio = { version = "1", features = ["full"] }
hyper = { version = "0.14", features = ["server", "http1", "tcp", "runtime"] }
reqwest = { version = "0.12", default-features = false, features = ["json"] }
clap = { version = "4", features = ["derive", "env"] }
tracing = "0.1"
tracing-subscriber = { version = "0.3", features = ["env-filter"] }
async-trait = "0.1"
libc = "0.2"
sysinfo = "0.32"
rust-embed = "8"
