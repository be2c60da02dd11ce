[package]
name = "x11_cursor"
version = "0.1.0"
edition = "2021"
publish = false

[dependencies]
x11rb = { version = "0.13", default-features = false, features = ["cursor", "render", "resource_manager"] }
