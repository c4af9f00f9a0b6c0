[package]
name = "scroll_anchor"
version = "0.1.0"
edition = "2021"
publish = false

[dependencies]
dioxus = "*"
dioxus-time = "*"
lipsum = "*"
rand = "*"
uuid = { version = "*", features = ["v4"] }
