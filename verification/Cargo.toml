[package]
name = "osx_scrobbler"
version = "0.3.4"
edition = "2021"
publish = false

[dependencies]
regex = "1"
urlencoding = "2"
chrono = "0.4"
image = { version = "0.25", default-features = false, features = ["png", "jpeg"] }
anyhow = "1"
log = "0.4"
env_logger = "*"
lazy_static = "1"
tokio = { version = "1", features = ["sync", "rt"] }
attohttpc = { version = "0.31", default-features = false, features = ["json"] }
serde = { version = "1", features = ["derive"] }
clap = { version = "4", features = ["derive"] }
backoff = "0.4"
atty = "0.2"
dirs = "*"
winit = { version = "0.30", default-features = false, features = ["rwh_06", "x11"] }
tray-icon = { version = "0.26", default-features = false }
media-remote = "*"
objc2-app-kit = { version = "0.3", default-features = false, features = ["std", "NSApplication", "NSResponder", "NSRunningApplication"] }
objc2-foundation = { version = "0.3", default-features = false, features = ["std"] }
