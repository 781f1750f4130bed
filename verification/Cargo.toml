[package]
name = "onetime_downloader"
version = "0.1.0"
edition = "2021"
publish = false

[dependencies]
bytes = "=0.5.6"
rand = "=0.7.3"
actix-web = "=2.0.0"
actix-multipart = "=0.2.0"
actix-rt = "=1.1.1"
futures = "=0.3.34"
rusoto_core = "=0.45.0"
rusoto_dynamodb = "=0.45.0"
tokio-postgres = "=0.5.5"
deadpool-postgres = "=0.5.6"
serde = { version = "=1.0.229", features = ["derive"] }
dotenv = "=0.15.0"
async-trait = "=0.1.92"
chrono = "=0.4.19"
