[package]
name = "quad_demo"
version = "0.1.0"
edition = "2021"
publish = false

[dependencies]
image = "*"
log = "*"
simple_logger = "*"
ndk-glue = "*"
