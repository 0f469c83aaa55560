[package]
name = "weather_clock"
version = "0.1.0"
edition = "2021"
publish = false

[dependencies]
anyhow = "1"
chrono = { version = "0.4", default-features = false, features = ["std"] }
embedded-graphics = "0.8"
embedded-svc = "0.27"
esp-idf-hal = "0.43"
esp-idf-svc = "0.48"
log = "0.4"
ssd1306 = "0.8"
