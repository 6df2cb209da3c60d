[package]
name = "embed_serve"
version = "0.1.0"
edition = "2021"
publish = false

[dependencies]
bytes = "=1.12.1"
chrono = { version = "=0.4.45", default-features = false, features = ["std"] }
http = "=1.5.0"
http-body-util = "=0.1.5"
mime_guess = "=2.0.4"
percent-encoding = "=2.3.2"
rust-embed = "=8.13.0"
tower-service = "=0.3.3"
