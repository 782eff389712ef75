[package]
name = "impressy"
version = "0.1.0"
edition = "2021"
publish = false

[dependencies]
image = { version = "=0.25.10", default-features = false, features = ["png", "jpeg", "gif", "bmp", "webp"] }
webp = "=0.3.1"
gif = "=0.14.2"
img-parts = "=0.4.1"
kamadak-exif = "=0.6.1"
serde = { version = "=1.0.229", features = ["derive"] }
serde_json = "=1.0.154"
toml = "=1.1.8"
base64 = "=0.22.1"
zeroize = "=1.9.1"
directories = "=6.0.0"
keyring = { version = "=3.6.3", features = ["linux-native"] }
ureq = "=3.5.1"
log = "=0.4.35"
thiserror = "=2.0.21"
cosmic-text = "=0.19.0"
imageproc = { version = "0.25", default-features = false }
