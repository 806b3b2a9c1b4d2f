[package]
name = "private_perps"
version = "0.1.0"
edition = "2021"
publish = false

[dependencies]
arcium-anchor = "=0.16.0"
anchor-lang = "=1.0.2"
arcis = "*"
