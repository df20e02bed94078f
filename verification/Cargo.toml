[package]
name = "phishtest"
version = "0.1.0"
edition = "2021"
publish = false

[dependencies]
base64 = "*"
urlencoding = "*"
chrono = "*"
uuid = { version = "*", features = ["v4"] }
lettre = { version = "*", default-features = false, features = ["smtp-transport", "builder"] }
