[package]
name = "whisperdesk_screencapturekit"
version = "0.2.0"
edition = "2021"
publish = false

[dependencies]
block2 = "0.6"
env_logger = "0.11"
log = "0.4"
napi = "2"
napi-derive = "2"
objc2 = "0.6"
objc2-core-media = "0.3"
objc2-core-video = "0.3"
objc2-foundation = "0.3"
serde_json = "1"
