[package]
name = "statusbar"
version = "0.1.0"
edition = "2021"
publish = false

[dependencies]
battery = "0.7"
chrono = "0.4"
sysinfo = "0.30"
tokio = { version = "1", features = ["macros", "rt-multi-thread", "sync", "time"] }
