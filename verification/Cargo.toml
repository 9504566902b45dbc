[package]
name = "pe_features"
version = "0.1.0"
edition = "2021"
publish = false

[dependencies]
argh = "*"
chrono = "*"
exe = "*"
lief = "*"
rayon = "*"
