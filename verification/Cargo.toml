[package]
name = "baby_bundler"
version = "0.1.0"
edition = "2021"
publish = false

[dependencies]
anyhow = "=1.0.104"
async-trait = "=0.1.92"
dotenv = "=0.15.0"
env_logger = { version = "=0.10.2", default-features = false }
ethers = { version = "=2.0.14", default-features = false, features = ["ws"] }
ethers-flashbots = { version = "=0.15.0", default-features = false }
hyper = { version = "=0.14.32", default-features = false, features = ["client", "http1", "tcp"] }
jsonrpsee = { version = "=0.18.2", default-features = false, features = ["server", "http-client", "macros"] }
log = "=0.4.34"
mev-share-rpc-api = { version = "=0.1.4" }
serde = { version = "=1.0.229", features = ["derive"] }
serde_json = "=1.0.154"
tokio = { version = "=1.54.1", default-features = false, features = ["macros", "rt-multi-thread"] }
tower = { version = "=0.4.13", default-features = false }
tower-http = { version = "=0.4.4", default-features = false, features = ["cors"] }
