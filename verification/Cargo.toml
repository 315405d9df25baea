[package]
name = "lineseek"
version = "0.1.0"
edition = "2021"
publish = false

[dependencies]
derive_builder = "*"
rev_buf_reader = "*"
thiserror = "*"
