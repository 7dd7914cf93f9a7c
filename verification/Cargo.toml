[package]
name = "lab_services"
version = "0.1.0"
edition = "2021"
publish = false

[dependencies]
tokio = { version = "=1.54.1", features = ["full"] }
serde_json = "=1.0.154"
sha3 = "=0.10.9"
mime = "=0.3.17"
serde = { version = "=1.0.229", features = ["derive"] }
warp = "=0.3.7"
futures-util = "=0.3.34"
tokio-stream = "=0.1.19"
thiserror = "1"
poem = "=3.1.12"
jsonwebtoken = "=9.3.1"
chrono = "=0.4.45"
validator = { version = "=0.18.1", features = ["derive"] }
strum_macros = "0.26"
teloxide = { version = "=0.12.2", default-features = false, features = ["macros", "rustls", "ctrlc_handler"] }
reqwest = { version = "=0.11.27", default-features = false, features = ["json", "rustls-tls"] }
anyhow = "1"
log = "0.4"
pretty_env_logger = "0.5"
dptree = "0.3"
takecell = "=0.1.1"
