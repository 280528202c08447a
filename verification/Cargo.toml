[package]
name = "pino"
version = "0.1.0"
edition = "2021"
publish = false

[dependencies]
bytemuck = "1"
pinocchio = "0.8"
borsh = "1"
heapless = "0.8"
clap = { version = "4", features = ["derive"] }
colored = "2"
tokio = { version = "1", features = ["macros", "rt-multi-thread"] }
anyhow = "1"
serde = { version = "1", features = ["derive"] }
toml = "0.8"
