[package]
name = "typed_call"
version = "0.1.0"
edition = "2021"
publish = false

[dependencies]
rusty_jsc = "*"
structopt = "0.3"
