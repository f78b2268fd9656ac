[package]
name = "response_media"
version = "0.1.0"
edition = "2021"
publish = false

[dependencies]
mime = "0.3"
darling = "0.20"
proc-macro2 = "1"
quote = "1"
syn = "2"
