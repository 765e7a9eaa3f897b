[package]
name = "straitjacket"
version = "0.1.0"
edition = "2021"
publish = false

[dependencies]
Inflector = "0.11"
syn = "1"
