[package]
name = "roxy_dbc"
version = "0.5.0"
edition = "2021"
publish = false

[dependencies]
can-dbc = "*"
