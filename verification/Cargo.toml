[package]
name = "dreamcaller"
version = "0.1.0"
edition = "2021"
publish = false

[dependencies]
slotmap = "1"
uuid = { version = "1", features = ["v4"] }
serde = { version = "1", features = ["derive"] }
ron = "0.8"
ariadne = "0.4"
rand = "0.8"
schemars = "0.8"
