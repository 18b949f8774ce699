[package]
name = "silod"
version = "0.1.0"
edition = "2021"
publish = false

[dependencies]
log = "*"
simple_logger = "*"
syslog = "*"
serde = { version = "*", features = ["derive"] }
toml = "*"
netlink-sys = "*"
kobject-uevent = "*"
