[package]
name = "synthesizer_emulation"
version = "0.1.0"
edition = "2021"
publish = false

[dependencies]
rand = "*"
cpal = "*"
device_query = "*"
