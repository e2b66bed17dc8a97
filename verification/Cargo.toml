[package]
name = "gha_badge"
version = "0.3.0"
edition = "2021"
publish = false

[dependencies]
anyhow = "1"
clap = "4"
dirs = "*"
