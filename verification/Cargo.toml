[package]
name = "videocall"
version = "0.1.0"
edition = "2021"
publish = false

[dependencies]
hashbrown = "*"
rtc = "*"
webrtc = "*"
serde = { version = "1", features = ["derive"] }
postcard = { version = "1", features = ["alloc"] }
thiserror = "*"
tokio = { version = "1", features = ["full"] }
async-broadcast = "*"
async-channel = "*"
async-stream = "*"
async-trait = "*"
error-stack = "*"
futures = "*"
futures-util = { version = "*", features = ["io"] }
s2n-quic = "*"
log = "*"
env_logger = "*"
rand = "*"
portable-atomic = "*"
pin-project-lite = "*"
bytes = "*"
spin = "*"
bytemuck = { version = "*", features = ["derive"] }
glam = "*"
