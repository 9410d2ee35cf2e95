[package]
name = "driftcode"
version = "0.1.0"
edition = "2021"
publish = false

[dependencies]
ssh-key = "=0.7.0-rc.11"
keyring = "=4.2.0"
russh = { version = "=0.64.1", default-features = false, features = ["ring", "flate2", "rsa"] }
russh-sftp = "=3.0.1"
tokio = { version = "=1.53.2", features = ["full"] }
serde = { version = "=1.0.229", features = ["derive"] }
serde_json = "=1.0.151"
uuid = { version = "=1.27.0", features = ["v4"] }
dirs = "=7.0.0"
log = "=0.4.34"
env_logger = "=0.11.11"
async-trait = "=0.1.92"
