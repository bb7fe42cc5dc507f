[package]
name = "window_native"
version = "0.1.0"
edition = "2021"
publish = false

[dependencies]
cocoa = "*"
core-graphics = "*"
objc = "0.2"
