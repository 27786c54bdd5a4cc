[package]
name = "lusion"
version = "0.1.0"
edition = "2021"
publish = false

[dependencies]
num_cpus = "=1.17.0"
futures-preview = "=0.3.0-alpha.19"
romio = "=0.3.0-alpha.10"
log = "=0.4.34"
env_logger = "=0.11.11"
serde = { version = "=1.0.229", features = ["derive"] }
serde_json = "=1.0.154"
http = "=1.5.0"
cookie = { version = "=0.18.2", features = ["private", "percent-encode", "key-expansion"] }
time = "=0.3.55"
bytes = "=1.12.1"
failure = "=0.1.8"
uuid = { version = "=1.29.0", features = ["v4", "serde"] }
chrono = { version = "=0.4.45", features = ["serde"] }
bcrypt = "=0.19.3"
rand = "=0.10.3"
dotenv = "=0.15.0"
