[package]
name = "gearsx"
version = "0.1.0"
edition = "2021"
publish = false

[dependencies]
chrono = { version = "=0.4.45", features = ["serde"] }
clap = { version = "=2.34.0", features = ["yaml"] }
diesel = { version = "=1.4.8", features = ["postgres", "uuidv07", "chrono", "serde_json", "r2d2"] }
dotenv = "=0.15.0"
env_logger = "=0.7.1"
juniper = "=0.14.2"
juniper_warp = "=0.5.2"
log = "=0.4.34"
serde = { version = "=1.0.229", features = ["derive"] }
serde_derive = "=1.0.229"
serde_json = { version = "=1.0.154", features = ["preserve_order"] }
serde_tuple = "=1.1.3"
serde_yaml = "=0.8.26"
uuid = { version = "=0.8.2", features = ["v4", "serde"] }
warp = "=0.1.23"
