[package]
name = "hosting_helper"
version = "0.1.0"
edition = "2021"
publish = false

[dependencies]
url = "2"
serde = { version = "1", features = ["derive"] }
serde_json = "1"
chrono = "0.4"
tldextract = "*"
dotenv = "0.15"
rusqlite = "*"
reqwest = "*"
tokio = { version = "1", features = ["full"] }
actix-web = "4"
actix-cors = "*"
actix-web-lab = "*"
awc = "3"
git2 = "*"
rand = "0.8"
