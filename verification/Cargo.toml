[package]
name = "worker_fileserver"
version = "0.1.0"
edition = "2021"
publish = false

[dependencies]
sha2 = "0.10"
hex = "0.4"
mime = "0.3"
mime_guess = "2"
http = "1"
