[package]
name = "tailers"
version = "0.1.0"
edition = "2021"
publish = false

[dependencies]
notify = "6"
structopt = "0.3"
tracing = "0.1"
tracing-subscriber = "0.3"
