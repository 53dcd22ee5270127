[package]
name = "slim_bindings"
version = "0.1.0"
edition = "2021"
publish = false

[dependencies]
agntcy-slim-datapath = "=0.7.0"
agntcy-slim-tracing = "=0.2.1"
rand = "0.9"
