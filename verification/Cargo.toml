[package]
name = "imvr"
version = "0.1.0"
edition = "2021"
publish = false

[dependencies]
tokio = { version = "=1.53.2", features = ["sync", "rt-multi-thread", "time", "net", "macros"] }
winit = { version = "=0.29.15", default-features = false, features = ["x11", "rwh_06"] }
image = { version = "=0.24.9", default-features = false, features = ["png"] }
crossterm = "=0.27.0"
clap = { version = "=4.5.61", features = ["derive"] }
log = "=0.4.34"
