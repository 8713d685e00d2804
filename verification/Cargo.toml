[package]
name = "diesel_ltree"
version = "0.1.0"
edition = "2021"
publish = false

[dependencies]
diesel = { version = "0.16", features = ["postgres"] }
