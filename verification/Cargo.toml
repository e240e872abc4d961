[package]
name = "minime"
version = "0.1.0"
edition = "2021"
publish = false

[dependencies]
ropey = { version = "1", default-features = false }
crossterm = "0.19"
clap = "2"
thiserror = "1"
arboard = { version = "*", default-features = false }
