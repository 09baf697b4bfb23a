[package]
name = "evil_alligator"
version = "0.1.0"
edition = "2021"
publish = false

[dependencies]
log = "0.4"
quicksilver = { version = "0.3", default-features = false, features = ["fonts"] }
serde = { version = "1", features = ["derive"] }
specs = "0.14"
