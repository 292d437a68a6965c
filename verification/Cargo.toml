[package]
name = "mecha_ctl"
version = "0.1.0"
edition = "2021"
publish = false

[dependencies]
sysinfo = "0.29"
bluer = "*"
tokio = { version = "*", features = ["rt-multi-thread", "macros"] }
clap = { version = "*", features = ["derive"] }
serde = { version = "*", features = ["derive"] }
serde_yaml = "*"
anyhow = "*"
mecha_network_ctl = "*"
