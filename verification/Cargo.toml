[package]
name = "sysnotifier"
version = "0.1.0"
edition = "2021"
publish = false

[dependencies]
anyhow = "1"
futures-lite = "2"
libpulse-binding = "2"
serde = { version = "1", features = ["derive"] }
serde_repr = "0.1"
tokio = { version = "1", features = ["macros", "rt-multi-thread"] }
zbus = { version = "5", default-features = false, features = ["tokio"] }
