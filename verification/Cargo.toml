[package]
name = "fbpml"
version = "0.1.0"
edition = "2021"
publish = false

[dependencies]
anyhow = "1"
clap = { version = "3", features = ["derive", "env"] }
dotenv = "0.15"
futures = "0.3"
hyper = { version = "0.14", features = ["client", "http1", "http2", "tcp"] }
hyperlocal = "0.8"
indicatif = "0.17"
prost = "0.11"
prost-types = "0.11"
rand = "0.8"
tokio = { version = "1", features = ["full"] }
tonic = "0.8"
