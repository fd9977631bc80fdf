[package]
name = "everything_sdk"
version = "0.1.0"
edition = "2021"
publish = false

[dependencies]
widestring = "1"
futures = "0.3"
