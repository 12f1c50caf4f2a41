[package]
name = "unicode_probe"
version = "0.1.0"
edition = "2021"
publish = false

[dependencies]
term_cursor = "=0.2.1"
