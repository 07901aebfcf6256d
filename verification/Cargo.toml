[package]
name = "rotary_volume"
version = "0.1.0"
edition = "2021"
publish = false

[dependencies]
regex = "1"
tokio = { version = "1", features = ["macros", "process", "rt-multi-thread"] }
rppal = "*"
embedded-graphics = "0.8"
ssd1306 = "0.9"
linux-embedded-hal = "0.4"
local-ip-address = "*"
serde = { version = "1", features = ["derive"] }
toml = "0.8"
