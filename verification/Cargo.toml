[package]
name = "stock_price_simulator"
version = "0.1.0"
edition = "2021"
publish = false

[dependencies]
actix-web = "4"
anyhow = "1"
chrono = "0.4"
env_logger = "0.10"
rand = "0.8"
rand_distr = "0.4"
serde = { version = "1", features = ["derive"] }
statrs = "0.16"
tokio = { version = "1", features = ["macros", "rt-multi-thread"] }
toml = "0.8"
