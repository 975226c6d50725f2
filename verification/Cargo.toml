[package]
name = "sealbox"
version = "0.1.0"
edition = "2021"
publish = false

[dependencies]
clap = "2"
sodiumoxide = "0.2"
