[package]
name = "multi_window_output"
version = "0.1.0"
edition = "2021"
publish = false

[dependencies]
termion = "*"
