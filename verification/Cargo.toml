[package]
name = "ifstats_logger"
version = "0.1.0"
edition = "2021"
publish = false

[dependencies]
rusqlite = { version = "*", features = ["bundled"] }
rtnetlink = "0.11"
netlink-packet-utils = "0.5"
tokio = { version = "1", features = ["macros", "rt-multi-thread"] }
futures = "0.3"
daemonize = "*"
signal-hook = "*"
libc = "0.2"
