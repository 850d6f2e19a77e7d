[package]
name = "timed_dispatch"
version = "0.1.0"
edition = "2021"
publish = false

[dependencies]
chrono = "0.4"
chrono-tz = "*"
serde_json = "1"
sha1 = "*"
rand = "*"
tokio = { version = "1", features = ["rt", "macros", "time", "net"] }
reqwest = { version = "*", default-features = false }
sntpc = "*"
surge-ping = "*"
