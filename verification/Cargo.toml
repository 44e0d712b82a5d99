[package]
name = "sgx_heap"
version = "0.1.0"
edition = "2021"
publish = false

[dependencies]
ferroc = "*"
