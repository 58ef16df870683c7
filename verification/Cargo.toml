[package]
name = "rping"
version = "0.1.0"
edition = "2021"
publish = false

[dependencies]
rand = "0.8"
socket2 = "0.3"
dns-lookup = "1"
clap = "2"
colored = "2"
ctrlc = "3"
humantime = "2"
