[package]
name = "k0r"
version = "0.1.0"
edition = "2021"
publish = false

[dependencies]
actix-web = { version = "=3.3.3", default-features = false }
exitcode = "=1.1.2"
futures = "=0.3.34"
log = "=0.4.34"
r2d2 = "=0.8.10"
r2d2_sqlite = "=0.17.0"
radix_fmt = "=1.0.0"
rusqlite = "=0.24.2"
serde = { version = "=1.0.229", features = ["derive"] }
serde_json = "=1.0.154"
url = "=2.5.8"
uuid = { version = "=0.8.2", features = ["v4"] }
