[package]
name = "gpui_bar"
version = "0.1.0"
edition = "2021"
publish = false

[dependencies]
chrono = "0.4"
futures = "0.3"
log = "0.4"
