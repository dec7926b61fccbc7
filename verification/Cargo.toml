[package]
name = "prog_rs"
version = "0.2.0"
edition = "2021"
publish = false

[dependencies]
term_size = "0.3"
