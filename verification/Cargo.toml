[package]
name = "beatsync"
version = "0.1.0"
edition = "2021"
publish = false

[dependencies]
midir = "=0.5.0"
rosc = "=0.1.6"
