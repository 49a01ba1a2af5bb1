[package]
name = "rustpush"
version = "0.1.0"
edition = "2021"
publish = false

[dependencies]
async-trait = "=0.1.92"
base64 = "=0.21.7"
log = "=0.4.35"
openssl = "=0.10.82"
plist = "=1.10.3"
rand = "=0.8.8"
reqwest = { version = "=0.12.28", default-features = false, features = ["default-tls", "json"] }
serde = { version = "=1.0.229", features = ["derive"] }
sha2 = "=0.10.9"
thiserror = "=1.0.69"
uuid = { version = "=1.29.0", features = ["v4"] }

[dev-dependencies]
prost = { version = "=0.13.5", default-features = false, features = ["std"] }
