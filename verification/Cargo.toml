[package]
name = "seanify"
version = "0.1.0"
edition = "2021"
publish = false

[dependencies]
seahash = "=4.1.0"
anyhow = "*"
log = "*"
pretty_env_logger = "*"
dotenv = "*"
tokio = { version = "=1.53.2", features = ["full"] }
tokio-stream = "*"
futures-util = "*"
warp = { version = "=0.4.3", features = ["server", "websocket", "compression"] }
sqlx = { version = "=0.9.0", features = ["runtime-tokio", "postgres", "bigdecimal"] }
serde = { version = "*", features = ["derive"] }
serde_json = "*"
youtube_dl = "=0.10.0"
num-traits = "*"
