[package]
name = "pair_vetter"
version = "0.1.0"
edition = "2021"
publish = false

[dependencies]
csv = "1"
dotenv = "0.15"
ethers = { version = "2", features = ["ws", "rustls"] }
futures-util = "0.3"
serde = { version = "1", features = ["derive"] }
tokio = { version = "1", features = ["macros", "rt-multi-thread", "time"] }
