[package]
name = "address_monitor"
version = "0.1.0"
edition = "2021"
publish = false

[dependencies]
alloy = { version = "*", default-features = false, features = ["std", "providers", "pubsub", "rpc-types-eth"] }
tokio = { version = "*", features = ["macros", "rt-multi-thread"] }
