[package]
name = "cocoa_bridge"
version = "0.1.0"
edition = "2021"
publish = false

[dependencies]
block = "0.1"
objc = "0.2"
objc_id = "0.1"
