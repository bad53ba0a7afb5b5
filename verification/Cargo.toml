[package]
name = "imap_notify"
version = "0.1.0"
edition = "2021"
publish = false

[dependencies]
clap = "=2.34.0"
dbus = { version = "=0.9.12", features = ["vendored"] }
imap = "=2.4.1"
libc = "=0.2.191"
log = "=0.4.34"
mailparse = "=0.13.8"
native-tls = "=0.2.18"
serde = { version = "=1.0.229", features = ["derive"] }
serde_yaml = "=0.8.26"
simple_logger = "=1.16.0"
