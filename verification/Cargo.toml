[package]
name = "bevy_eventwork"
version = "0.1.0"
edition = "2021"
publish = false

[dependencies]
async-channel = "2"
async-trait = "0.1"
bevy = { version = "0.15", default-features = false }
bincode = "1"
dashmap = "6"
futures-lite = "2"
serde = { version = "1", features = ["derive"] }
