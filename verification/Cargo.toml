[package]
name = "phonecam"
version = "0.1.0"
edition = "2021"
publish = false

[dependencies]
crossbeam = "*"
tokio = { version = "*", features = ["full"] }
libc = "*"
axum = { version = "*", features = ["ws"] }
tower-http = { version = "*", features = ["fs"] }
serde = { version = "*", features = ["derive"] }
serde_json = "*"
local-ip-address = "*"
qrcode = { version = "*", default-features = false }
mimalloc = "*"
io-uring = "*"
ffmpeg-next = "*"
