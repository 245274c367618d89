[package]
name = "diesel_sqltype_enum_pg"
version = "0.1.0"
edition = "2021"
publish = false

[dependencies]
proc-macro2 = "*"
syn = { version = "*", features = ["full"] }
