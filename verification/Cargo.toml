[package]
name = "plantuml_doc"
version = "0.1.0"
edition = "2021"
publish = false

[dependencies]
rust-crypto = "0.2"
deflate = "1"
ureq = "2"
clap = { version = "4", features = ["derive"] }
syn = "1"
quote = "1"
proc-macro2 = "1"
