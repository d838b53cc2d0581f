[package]
name = "cacache_ttl"
version = "0.1.0"
edition = "2021"
publish = false

[dependencies]
cacache = "=13.1.0"
miette = "5"
thiserror = "=2.0.21"
