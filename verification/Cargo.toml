[package]
name = "turso_mappers"
version = "0.1.0"
edition = "2021"
publish = false

[dependencies]
turso = "*"
