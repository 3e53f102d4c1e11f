[package]
name = "embedded_static_ref_cell"
version = "0.1.0"
edition = "2021"
publish = false

[dependencies]
critical-section = "1.1"

[dev-dependencies]
critical-section = { version = "1.1", features = ["std"] }
