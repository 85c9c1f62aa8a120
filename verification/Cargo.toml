[package]
name = "wifi_visualizer"
version = "0.1.0"
edition = "2021"
publish = false

[dependencies]
byteorder = "1"
radiotap = "1"
ieee80211 = "*"
serde = { version = "1", features = ["derive"] }
serde_json = "1"
clap = { version = "4", features = ["derive"] }
pcap = "*"
warp = { version = "0.3", default-features = false, features = ["websocket"] }
tokio = { version = "1", features = ["macros", "rt-multi-thread", "time"] }
futures = "0.3"
log = "0.4"
env_logger = "*"
open = "*"
caps = "*"
