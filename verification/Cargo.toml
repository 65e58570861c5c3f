[package]
name = "event_gateway"
version = "0.1.0"
edition = "2021"
publish = false

[dependencies]
actix-http = "=3.19.0"
actix-web = "=4.18.1"
bcrypt = "=0.15.1"
chrono = "=0.4.45"
env_logger = "=0.11.11"
futures = "=0.3.34"
influxdb2 = "=0.5.2"
jsonwebtoken = "=9.3.1"
log = "=0.4.34"
serde = { version = "=1.0.229", features = ["derive"] }
serde_json = { version = "=1.0.154", features = ["preserve_order"] }
