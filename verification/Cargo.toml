[package]
name = "generic_linkme"
version = "0.1.0"
edition = "2021"
publish = false

[dependencies]
capstone = "*"
once_cell = "1"
rand = "0.8"
proc-macro2 = "1"
quote = "1"
syn = { version = "2", features = ["full"] }
