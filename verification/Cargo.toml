[package]
name = "hachi"
version = "0.1.0"
edition = "2021"
publish = false

[dependencies]
tokio = { version = "*", features = ["macros", "rt-multi-thread", "sync", "time"] }
zbus = { version = "*", default-features = false, features = ["tokio"] }
futures = "*"
crossterm = "*"
ratatui = "*"
tachyonfx = "*"
rand = "*"
