[package]
name = "caliptra_emu_doe"
version = "0.1.0"
edition = "2021"
publish = false

[dependencies]
aes = "0.8"
cbc = "0.1"
tock-registers = "0.8.1"
