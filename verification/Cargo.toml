[package]
name = "singer"
version = "0.1.0"
edition = "2021"
publish = false

[dependencies]
serde_json = { version = "*", features = ["preserve_order"] }
serde = { version = "*", features = ["derive"] }
arrow = "*"
parquet = "*"
fs-err = "*"
clap = { version = "*", features = ["derive"] }

[dev-dependencies]
tempfile = "*"
bytes = "*"
