[package]
name = "silly_delay"
version = "0.1.0"
edition = "2021"
publish = false

[dependencies]
queues = "=1.1.0"
vst = "=0.1.0"
