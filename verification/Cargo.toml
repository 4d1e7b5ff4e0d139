[package]
name = "iron"
version = "0.1.0"
edition = "2021"
publish = false

[dependencies]
hyper = "0.10"
typemap = "0.3"
url = "1"
