[package]
name = "telenotify"
version = "0.1.0"
edition = "2021"
publish = false

[dependencies]
anyhow = "1"
config-file = "=0.2.3"
dbus = "=0.9.12"
dbus-crossroads = "=0.5.3"
lazy_static = "1"
serde = { version = "1", features = ["derive"] }
serde_derive = "1"
serde_json = "1"
takecell = "=0.1.1"
teloxide = { version = "=0.10.1", features = ["macros"] }
tokio = { version = "1", features = ["rt-multi-thread", "macros"] }
