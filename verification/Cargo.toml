[package]
name = "ansilust"
version = "0.1.0"
edition = "2021"
publish = false

[dependencies]
bitflags = { version = "2", features = ["serde"] }
serde = { version = "1", features = ["derive"] }
