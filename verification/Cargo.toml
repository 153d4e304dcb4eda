[package]
name = "controller_mapper"
version = "0.1.0"
edition = "2021"
publish = false

[dependencies]
anyhow = "*"
enigo = "*"
gilrs = "*"
serde = { version = "*", features = ["derive"] }
serde_json = "*"
uuid = "*"
