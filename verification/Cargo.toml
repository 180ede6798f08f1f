[package]
name = "tamagotchi"
version = "0.1.0"
edition = "2021"
publish = false

[dependencies]
gstd = "=1.10.0"
gmeta = "=1.4.2"
