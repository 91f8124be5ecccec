[package]
name = "usb_audio"
version = "0.1.0"
edition = "2021"
publish = false

[dependencies]
heapless = "=0.8.0"
embassy-usb = "=0.6.0"
embassy-sync = { version = "=0.8.0", features = ["std"] }
embassy-time = "=0.5.1"
embassy-futures = "=0.1.2"
serde = { version = "=1.0.229", features = ["derive"] }
postcard-schema = { version = "=0.2.5", features = ["derive"] }
postcard-rpc = { version = "=0.12.1", features = ["use-std", "raw-nusb"] }
thiserror = "=2.0.21"
biquad = "=0.6.0"
micromath = "=2.1.0"
log = "=0.4.35"
tokio = { version = "=1.54.1", features = ["rt-multi-thread", "macros", "time"] }
