[package]
name = "bot_core"
version = "0.1.0"
edition = "2021"
publish = false

[dependencies]
rand = "0.9"
serde = { version = "1", features = ["derive"] }
serde_json = "1"
tokio = { version = "1", features = ["sync", "rt", "rt-multi-thread", "time", "macros"] }
log = "0.4"
futures-util = "0.3"
tw_merge = "0.1"
include_dir = "0.7"
opencv = { version = "*", default-features = false, features = ["imgproc", "imgcodecs", "highgui", "videoio"] }
dioxus = { version = "0.7", default-features = false, features = ["macro", "html", "signals", "hooks"] }
