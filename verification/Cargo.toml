[package]
name = "tfinit"
version = "0.1.0"
edition = "2021"
publish = false

[dependencies]
hcl-rs = "*"
anyhow = "*"
clap = { version = "*", features = ["derive", "env"] }
clap_complete = "*"
clap_mangen = "*"
glob = "*"
tracing = "*"
tracing-subscriber = { version = "*", features = ["env-filter"] }

[dev-dependencies]
serde_json = "*"
