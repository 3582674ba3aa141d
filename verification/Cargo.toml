[package]
name = "zircon_nt10"
version = "0.1.0"
edition = "2021"
publish = false

[dependencies]
r-efi = "*"
