[package]
name = "rend3_routine"
version = "0.1.0"
edition = "2021"
publish = false

[dependencies]
rend3 = "*"
