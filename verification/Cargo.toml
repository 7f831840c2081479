[package]
name = "group_multi_select"
version = "0.1.0"
edition = "2021"
publish = false

[dependencies]
console = "*"
