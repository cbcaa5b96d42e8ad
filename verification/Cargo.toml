[package]
name = "schemaconv"
version = "0.1.0"
edition = "2021"
publish = false

[dependencies]
diesel = { version = "1", features = ["postgres"] }
url = "2"
