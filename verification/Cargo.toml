[package]
name = "rotor4"
version = "0.1.0"
edition = "2021"
publish = false

[dependencies]
bytemuck = "1"
serde = { version = "1", features = ["derive"] }
