[package]
name = "alphaview"
version = "0.1.0"
edition = "2021"
publish = false

[dependencies]
kamadak-exif = "*"
base64 = "*"
image = { version = "*", default-features = false, features = ["jpeg"] }
rawler = "*"
rayon = "*"
serde = { version = "*", features = ["derive"] }
