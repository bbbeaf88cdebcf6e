[package]
name = "diem_core"
version = "0.1.0"
edition = "2021"
publish = false

[dependencies]
anyhow = "=1.0.104"
diem-crypto = "=0.0.3"
diem-types = "=0.0.3"
directories = "=4.0.1"
serde = { version = "=1.0.229", features = ["derive"] }
thiserror = "=1.0.69"
toml = "=0.5.11"
url = "=2.5.8"

[dev-dependencies]
tempfile = "=3.27.0"
