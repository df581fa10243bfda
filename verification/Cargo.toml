[package]
name = "boilermates"
version = "0.1.0"
edition = "2021"
publish = false

[dependencies]
syn = { version = "2", features = ["full"] }
proc-macro2 = "1"
quote = "1"
heck = "0.5"
indexmap = "2"
