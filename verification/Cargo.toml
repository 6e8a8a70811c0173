[package]
name = "mirror_sync"
version = "0.1.0"
edition = "2021"
publish = false

[dependencies]
regex = "=1.13.1"
url = "=2.5.8"
walkdir = "=2.5.0"
chrono = { version = "=0.4.45", features = ["serde"] }
bincode = "=1.3.3"
serde = { version = "=1.0.229", features = ["derive"] }
sea-orm = { version = "=2.0.4", default-features = false, features = ["macros", "with-chrono"] }
