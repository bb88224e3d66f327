[package]
name = "search_dispatch"
version = "0.2.0"
edition = "2021"
publish = false

[dependencies]
grep = "*"
walkdir = "*"
