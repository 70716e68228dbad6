[package]
name = "rordle"
version = "0.2.0"
edition = "2021"
publish = false

[dependencies]
clap = "4"
rand = "0.8"
termion = "*"
