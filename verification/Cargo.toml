[package]
name = "ssot_core"
version = "0.1.0"
edition = "2021"
publish = false

[dependencies]
jsonwebtoken = { version = "=11.1.0", features = ["rust_crypto"] }
serde_json = "=1.0.151"
base64 = "=0.23.1"
rand = "=0.10.3"
chrono = { version = "=0.4.45", default-features = false, features = ["clock"] }
lettre = { version = "=0.11.23", default-features = false, features = ["builder", "smtp-transport", "pool", "rustls-tls"] }
uuid = { version = "=1.27.0", features = ["v4"] }
serde = { version = "=1.0.229", features = ["derive"] }
actix-web = "=4.15.0"
actix-session = { version = "=0.11.0", features = ["cookie-session"] }
actix-cors = "=0.7.2"
clap = { version = "=4.6.7", features = ["derive"] }
clap-verbosity-flag = "=3.0.4"
log = "=0.4.34"
tracing-subscriber = "=0.3.23"
sys_metrics = "=0.2.7"
