[package]
name = "dir_server"
version = "0.1.0"
edition = "2021"
publish = false

[dependencies]
iron = "0.6"
mime_guess = "1.8"
