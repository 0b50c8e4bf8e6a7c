[package]
name = "x_l4rs"
version = "0.1.0"
edition = "2021"
publish = false

[dependencies]
base64 = "0.22"
rust-crypto = "0.2"
md5 = "0.7"
hex = "0.4"
percent-encoding = "2"
ureq = { version = "3", features = ["json"] }
image = { version = "0.25", default-features = false, features = ["png", "jpeg", "gif", "bmp", "webp"] }
serde = { version = "1", features = ["derive"] }
serde_json = "1"
log = "0.4"
rand = "0.9"
thiserror = "2"
getset2 = "*"
