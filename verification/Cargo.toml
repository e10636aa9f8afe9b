[package]
name = "system_proxy"
version = "0.1.0"
edition = "2021"
publish = false

[dependencies]
url = "=2.5.8"
log = "=0.4.34"
static_assertions = "=1.1.0"
zbus = "=3.15.2"
tokio = { version = "=1.54.1", features = ["rt-multi-thread", "sync"] }
gio = "0.15"
