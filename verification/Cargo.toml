[package]
name = "simple_presenter"
version = "0.1.0"
edition = "2021"
publish = false

[dependencies]
anyhow = "=1.0.104"
fraction = "0.15"
futures-util = "=0.3.34"
gstreamer = "0.23"
gstreamer-app = "0.23"
gstreamer-pbutils = "0.23"
gtk4 = "0.9"
local-ip-address = "=0.6.13"
log = "=0.4.34"
raylib = "5.5"
serde = { version = "=1.0.229", features = ["derive"] }
tokio = { version = "=1.54.1", features = ["rt-multi-thread", "macros", "net", "sync"] }
tokio-tungstenite = "0.26"
