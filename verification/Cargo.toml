[package]
name = "statechain"
version = "0.1.0"
edition = "2021"
publish = false

[dependencies]
bitcoin = "=0.32.102"
ecies = { version = "=0.2.11", default-features = false, features = ["pure", "std"] }
rand = "=0.8.8"
uuid = { version = "=1.27.0", features = ["v4"] }
