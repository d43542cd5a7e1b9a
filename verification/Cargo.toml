[package]
name = "netctl"
version = "0.1.0"
edition = "2021"
publish = false

[dependencies]
async-trait = "0.1"
chrono = "0.4"
clap = { version = "4", features = ["derive"] }
clap_complete = "4"
colored = "2"
comfy-table = "7"
crossterm = "0.27"
futures = "0.3"
inquire = "0.7"
netlink-packet-route = "0.19"
ratatui = "0.26"
rtnetlink = "0.14"
serde = { version = "1", features = ["derive"] }
serde_json = "1"
serde_yaml = "0.9"
thiserror = "1"
tokio = { version = "1", features = ["full"] }
toml = "0.8"
tracing = "0.1"
tracing-subscriber = { version = "0.3", features = ["env-filter", "json"] }
zbus = { version = "4", default-features = false, features = ["tokio"] }
