[package]
name = "soksak_sidecar_browser_chromium"
version = "0.0.1"
edition = "2021"
publish = false

[dependencies]
serde_json = "=1.0.154"
jpeg-encoder = "=0.7.1"
cef = { version = "=149.3.0", default-features = false, features = ["dox"] }
libc = "=0.2.191"
objc2 = "=0.6.5"
objc2-foundation = "=0.3.2"
raw-window-handle = "=0.6.2"
winit = "=0.30.13"
