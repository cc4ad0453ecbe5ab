[package]
name = "peer_stream"
version = "0.1.0"
edition = "2021"
publish = false

[dependencies]
base64 = "0.22"
sntpc = "0.3"
webrtc = "0.9"
tokio = { version = "1", features = ["full"] }
serde_json = "1"
log = "0.4"
env_logger = "0.10"
anyhow = "1"
cpal = "0.15"
hound = "3.5"
gstreamer = "0.21"
gstreamer-app = "0.21"
winput = "0.2"
