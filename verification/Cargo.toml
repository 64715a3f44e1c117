[package]
name = "qrscan"
version = "0.1.0"
edition = "2021"
publish = false

[dependencies]
rqrr = "*"
image = { version = "*", default-features = false, features = ["png"] }
rdev = "*"
webbrowser = "*"

[dev-dependencies]
qrcode = { version = "*", default-features = false }
