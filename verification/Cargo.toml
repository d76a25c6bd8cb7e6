[package]
name = "jdkm"
version = "0.1.0"
edition = "2021"
publish = false

[dependencies]
scraper = "*"
serde_json = "*"
zip = { version = "*", default-features = false, features = ["deflate"] }
tar = "*"
flate2 = "*"
xz2 = "*"
reqwest = { version = "*", default-features = false, features = ["blocking", "rustls-tls"] }
dirs = "*"
