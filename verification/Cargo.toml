[package]
name = "grapheme_machine"
version = "0.1.0"
edition = "2021"
publish = false

[dependencies]
u8char = "*"
