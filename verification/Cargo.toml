[package]
name = "market_wire"
version = "0.1.0"
edition = "2021"

[dependencies]
bincode = "2"
serde = { version = "1", features = ["derive"] }
