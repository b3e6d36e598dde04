[package]
name = "arb_watch"
version = "0.1.0"
edition = "2021"
publish = false

[dependencies]
chrono = "*"
actix-files = "*"
actix-web = { version = "*", default-features = false, features = ["macros"] }
anyhow = "*"
dotenv = "*"
env_logger = "*"
ethers-contract = "*"
ethers-core = "*"
ethers-providers = "*"
log = "*"
rusqlite = { version = "*", features = ["bundled"] }
serde = { version = "*", features = ["derive"] }
serde_json = "*"
tokio = { version = "*", features = ["macros", "rt-multi-thread", "time"] }
