[package]
name = "recovery_core"
version = "0.1.0"
edition = "2021"
publish = false

[dependencies]
filetime = "=0.2.29"
image = "=0.25.10"
rayon = "=1.12.0"
rusqlite = { version = "=0.41.1", features = ["bundled"] }
