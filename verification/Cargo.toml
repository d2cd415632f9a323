[package]
name = "batiskaf"
version = "0.1.0"
edition = "2021"
publish = false

[dependencies]
rusqlite = "*"
syn = "*"
quote = "*"
proc-macro2 = "*"
