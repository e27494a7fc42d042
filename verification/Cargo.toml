[package]
name = "curl_builder"
version = "0.1.0"
edition = "2021"
publish = false

[dependencies]
chrono = "*"
crossterm = "*"
ratatui = "*"
url = "*"
urlencoding = "*"
uuid = { version = "*", features = ["v4"] }
which = "*"
