[package]
name = "sem"
version = "0.1.0"
edition = "2021"
publish = false

[dependencies]
async-trait = "0.1"
clap = { version = "4", features = ["derive"] }
crossterm = { version = "0.29", features = ["event-stream"] }
env_logger = "0.11"
faer = "*"
futures = "0.3"
log = "0.4"
plotters = { version = "0.3", default-features = false, features = ["bitmap_backend", "bitmap_encoder", "line_series"] }
ratatui = "*"
rusb = "0.9"
serde = { version = "1", features = ["derive"] }
serde_json = "1"
serialport = { version = "4", default-features = false }
thiserror = "2"
tokio = { version = "1", features = ["macros", "rt", "rt-multi-thread", "sync", "time", "process", "signal"] }
tokio-util = { version = "0.7", features = ["rt"] }
wasm-bindgen = "0.2"
