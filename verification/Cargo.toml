[package]
name = "opendalr"
version = "0.1.0"
edition = "2021"
publish = false

[dependencies]
opendal = { version = "=0.52.0", features = ["services-fs", "services-gcs"] }

[dev-dependencies]
tempfile = "*"
