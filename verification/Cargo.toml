[package]
name = "it8951"
version = "0.1.0"
edition = "2021"
publish = false

[dependencies]
spidev = "*"
gpio-cdev = "*"
