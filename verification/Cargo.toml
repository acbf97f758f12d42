[package]
name = "surf"
version = "0.1.0"
edition = "2021"
publish = false

[dependencies]
accept-encoding = "=0.1.0"
async-compression = { version = "=0.4.51", default-features = false, features = ["futures-io", "gzip", "deflate", "brotli", "zstd"] }
async-trait = "=0.1.92"
cacache = "=13.1.0"
encoding_rs = "=0.8.42"
futures = "=0.3.34"
http = "=1.5.0"
log = { version = "=0.4.34", features = ["kv"] }
mime = "=0.3.17"
serde = { version = "=1.0.229", features = ["derive"] }
serde_json = "=1.0.154"
serde_urlencoded = "=0.7.1"
thiserror = "=1.0.69"
url = "=2.5.8"
