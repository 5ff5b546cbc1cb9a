[package]
name = "type-duplicate-derive"
version = "0.1.0"
edition = "2021"
publish = false

[dependencies]
proc-macro2 = "1"
quote = "1"
syn = "2"

[dev-dependencies]
proc-macro2 = { version = "1", features = ["span-locations"] }
