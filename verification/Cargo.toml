[package]
name = "carro"
version = "0.1.0"
edition = "2021"
publish = false

[dependencies]
rppal = { version = "0.17", features = ["hal"] }
ctrlc = "3"
stoppable_thread = "0.2"
embedded-graphics = "0.8"
ssd1306 = "0.8"
i2cdev = "0.6"
linux-embedded-hal = { version = "0.4", default-features = false, features = ["i2c"] }
bmp280 = "*"
bme280 = "0.5"
