[package]
name = "adafruit_motorkit"
version = "0.1.0"
edition = "2021"
publish = false

[dependencies]
pwm-pca9685 = "*"
linux-embedded-hal = "*"
