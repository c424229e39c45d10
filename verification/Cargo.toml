[package]
name = "chalk-ir"
version = "0.1.0"
edition = "2021"
publish = false

[dependencies]
chalk-engine = "=0.10.0"
