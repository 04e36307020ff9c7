[package]
name = "targeted_vector"
version = "0.8.0"
edition = "2021"
publish = false

[dependencies]
json = "0.12"
anyhow = "1"
walkdir = "2"
whoami = "*"
chrono = "0.4"
