[package]
name = "protocole_exquis"
version = "0.1.0"
edition = "2021"
publish = false

[dependencies]
actix = "0.13"
actix-broker = "0.4"
actix-files = "0.6"
actix-rt = "2"
actix-web = "4"
actix-web-actors = "4"
chrono = "=0.4.45"
diesel = { version = "=1.4.8", features = ["mysql", "r2d2", "chrono"] }
dotenv = "=0.15.0"
env_logger = "=0.7.1"
log = "=0.4.35"
rand = "=0.7.3"
serde = { version = "=1.0.229", features = ["derive"] }
serde_json = "=1.0.154"
