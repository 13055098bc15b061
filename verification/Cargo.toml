[package]
name = "bn"
version = "0.1.0"
edition = "2021"
publish = false

[dependencies]
battery = "0.7"
clap = "4"
notify-rust = "4"
