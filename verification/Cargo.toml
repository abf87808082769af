[package]
name = "battle_menu"
version = "0.1.0"
edition = "2021"
publish = false

[dependencies]
turbo-genesis-sdk = "*"
