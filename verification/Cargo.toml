[package]
name = "creek"
version = "0.1.0"
edition = "2021"
publish = false

[dependencies]
regex = "=1.13.1"
sha2 = "=0.10.9"
uuid = { version = "=1.29.0", features = ["v4"] }
chrono = "=0.4.45"
serde = { version = "1", features = ["derive"] }
serde_json = "=1.0.154"
tokio = { version = "1", features = ["full"] }
tokio-util = "0.7"
futures-util = "0.3"
async-trait = "0.1"
anyhow = "1"
log = "0.4"
reqwest = { version = "0.12", features = ["json", "stream"] }
tokio-tungstenite = { version = "0.26", features = ["native-tls"] }
url = "2"
base64 = "0.22"
http = "1"
git2 = "0.20"
rusqlite = { version = "0.32", features = ["bundled"] }
dotenv = "0.15"
