[package]
name = "network_launcher"
version = "0.1.0"
edition = "2021"
publish = false

[dependencies]
anyhow = "1"
clap = { version = "4", features = ["derive", "env"] }
hex = "0.4"
ic_principal = "*"
notify = "*"
pocket-ic = "*"
reqwest = { version = "0.12", default-features = false, features = ["json"] }
semver = "1"
serde = { version = "1", features = ["derive"] }
serde_json = "1"
sysinfo = "*"
tempfile = "3"
tokio = { version = "1", features = ["macros", "rt-multi-thread", "process", "signal", "sync", "time"] }
