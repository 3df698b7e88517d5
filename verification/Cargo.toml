[package]
name = "softbuffer"
version = "0.1.0"
edition = "2021"
publish = false

[dependencies]
cocoa = "0.24"
core-graphics = "0.22"
foreign-types = "0.3"
objc = "0.2"
raw-window-handle = "0.5"
