[package]
name = "julian"
version = "0.1.0"
edition = "2021"
publish = false

[dependencies]
cosmwasm-std = "2"
cw-storage-plus = "2"
cw2 = "2"
is_false = "*"
schemars = "0.8"
serde = { version = "1", features = ["derive"] }
