[package]
name = "padpointer"
version = "0.1.0"
edition = "2021"
publish = false

[dependencies]
byteorder = "1"
enigo = "0.2"
gilrs = "0.10"
dialoguer = { version = "0.11", features = ["fuzzy-select"] }
