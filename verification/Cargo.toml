[package]
name = "halfwidth"
version = "0.1.0"
edition = "2021"
publish = false

[dependencies]
html5ever = "=0.39.0"
markup5ever_rcdom = "=0.39.0"
clap = { version = "=4.6.7", features = ["derive"] }
clipboard-rs = "=0.3.5"
mac-notification-sys = "=0.6.15"
tempfile = "=3.27.0"
tracing = "=0.1.44"
tracing-subscriber = "=0.3.23"
