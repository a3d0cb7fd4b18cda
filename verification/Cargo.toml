[package]
name = "schismatic"
version = "0.1.0"
edition = "2021"
publish = false

[dependencies]
clap = { version = "4", features = ["derive"] }
parking_lot = "0.12"
staticvec = "0.11"
