[package]
name = "ioscpy_window"
version = "0.1.0"
edition = "2021"
publish = false

[dependencies]
anyhow = "1"
minifb = "*"
objc = "0.2"
block = "0.1"
cocoa = "*"
