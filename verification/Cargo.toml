[package]
name = "termcolor"
version = "0.1.0"
edition = "2021"
publish = false

[dependencies]
winapi-util = "0.1"
