[package]
name = "openvpn3_gui"
version = "0.1.0"
edition = "2021"
publish = false

[dependencies]
regex = "=1.13.1"
circular-queue = "=0.2.7"
uuid = { version = "=1.29.0", features = ["v4"] }
chrono = "=0.4.45"
tokio = { version = "=1.54.1", features = ["process", "time", "rt-multi-thread", "io-util", "sync"] }
reqwest = "=0.12.28"
dirs = "=5.0.1"
notify-rust = "=4.18.2"
ksni = { version = "=0.3.7", features = ["blocking"] }
image = { version = "=0.25.10", default-features = false, features = ["png"] }
rfd = { version = "=0.17.2", default-features = false, features = ["xdg-portal"] }
