[package]
name = "j4_persist"
version = "0.1.0"
edition = "2021"
publish = false

[dependencies]
clap = "2"
failure = "0.1"
i3ipc = "*"
notify-rust = "*"
