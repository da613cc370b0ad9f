[package]
name = "proc-macro-warning"
version = "1.0.0"
edition = "2021"
publish = false

[dependencies]
proc-macro2 = "1"
quote = "1"
syn = "2"
unicode-ident = "1"
