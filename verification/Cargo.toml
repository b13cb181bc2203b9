[package]
name = "dezleks"
version = "0.1.0"
edition = "2021"
publish = false

[dependencies]
base64 = "=0.22.1"
kamadak-exif = "=0.5.5"
image = { version = "=0.25.10", default-features = false, features = ["bmp", "dds", "exr", "ff", "gif", "hdr", "ico", "jpeg", "png", "pnm", "qoi", "tga", "tiff", "webp"] }
serde = { version = "=1.0.229", features = ["derive"] }
tempfile = "=3.27.0"
tokio = { version = "=1.54.1", features = ["fs", "io-util"] }
reqwest = { version = "=0.12.28", default-features = false, features = ["stream", "rustls-tls"] }
futures-util = "=0.3.34"
log = "=0.4.35"
