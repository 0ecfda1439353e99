[package]
name = "judge_auth"
version = "0.1.0"
edition = "2021"
publish = false

[dependencies]
ring = "=0.17.14"
data-encoding = "=2.11.1"
jsonwebtoken = "=9.3.1"
serde = { version = "=1.0.229", features = ["derive"] }
serde_json = "=1.0.151"
actix-web = "=4.15.0"
actix-rt = "=2.15.0"
clap = { version = "=4.6.7", features = ["derive"] }
simplelog = "=0.12.2"
log = "=0.4.34"
