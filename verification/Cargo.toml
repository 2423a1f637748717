[package]
name = "esp32_rustboard"
version = "0.1.0"
edition = "2021"
publish = false

[dependencies]
anyhow = "1"
embassy-futures = "*"
embassy-time = { version = "*", features = ["std"] }
esp32-nimble = "*"
esp-idf-hal = "*"
esp-idf-svc = "*"
esp-idf-sys = "*"
heapless = "0.8"
log = "0.4"
zerocopy = { version = "0.8", features = ["derive"] }
