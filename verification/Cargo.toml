[package]
name = "virtualboy_core"
version = "0.1.0"
edition = "2021"
publish = false

[dependencies]
encoding = "0.2"
clap = "4"
nom = "7"
