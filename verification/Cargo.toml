[package]
name = "arbiter"
version = "0.1.0"
edition = "2021"
publish = false

[dependencies]
anyhow = "=1.0.104"
chrono = "=0.4.45"
fern = { version = "=0.7.1", features = ["colored"] }
humantime = "=2.4.0"
log = "=0.4.34"
postgres = "=0.19.14"
serde = "=1.0.229"
serde_derive = "=1.0.229"
tokio = { version = "=1.53.2", features = ["macros", "rt-multi-thread"] }
warp = { version = "=0.4.3", features = ["server"] }
