[package]
name = "global_hotkey"
version = "0.1.0"
edition = "2021"
publish = false

[dependencies]
crossbeam-channel = "0.5"
x11-dl = "2"
