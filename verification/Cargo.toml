[package]
name = "firewall_api"
version = "0.1.0"
edition = "2021"
publish = false

[dependencies]
actix-web = "4"
anyhow = "1"
async-trait = "0.1"
bb8 = "*"
bb8-redis = "*"
chrono = "0.4"
duration-string = { version = "*", features = ["serde"] }
futures = "0.3"
mime = "*"
num-traits = "0.2"
pepe-config = "*"
reqwest = { version = "*", features = ["json"] }
serde = { version = "1", features = ["derive"] }
serde_json = "1"
thiserror = "*"
tokio = { version = "1", features = ["full"] }
tracing = "0.1"
tracing-actix-web = "*"
