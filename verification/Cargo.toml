[package]
name = "loggerv"
version = "0.6.0"
edition = "2021"
publish = false

[dependencies]
ansi_term = "0.9"
atty = "0.2"
log = "0.3"
