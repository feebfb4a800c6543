[package]
name = "rifling"
version = "0.1.0"
edition = "2021"
publish = false

[dependencies]
hex = "*"
ring = "*"
serde_json = "*"
url = "*"

[dev-dependencies]
hmac = "*"
sha1 = "*"
