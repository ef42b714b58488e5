[package]
name = "hwsim_medium"
version = "0.1.0"
edition = "2021"
publish = false

[dependencies]
anyhow = "*"
futures = "*"
genetlink = "*"
libc = "*"
netlink-packet-core = "*"
netlink-packet-generic = "*"
netlink-packet-utils = "*"
netlink-sys = "*"
serde = { version = "*", features = ["derive"] }
serde_yaml = "*"
tokio = { version = "*", features = ["macros", "rt-multi-thread", "sync", "signal"] }
