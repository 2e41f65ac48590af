[package]
name = "touchpad_i2c"
version = "0.1.0"
edition = "2021"
publish = false

[dependencies]
anyhow = "*"
i2cdev = "*"
