[package]
name = "nenuphars"
version = "0.1.0"
edition = "2021"
publish = false

[dependencies]
nannou = "0.9"
rand = "0.6"
failure = "0.1"
