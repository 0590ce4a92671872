[package]
name = "display_controller"
version = "0.1.0"
edition = "2021"
publish = false

[dependencies]
embedded-graphics = "*"
esp-bootloader-esp-idf = "*"
esp-hal = "*"
ssd1306 = "*"
