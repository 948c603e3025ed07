[package]
name = "valora"
version = "0.1.0"
edition = "2021"
publish = false

[dependencies]
derive_more = "=0.99.20"
failure = "=0.1.8"
glium = "=0.32.1"
lyon = "0.8"
rand = "=0.7.3"
structopt = "=0.3.26"
