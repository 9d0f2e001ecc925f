[package]
name = "roxigraph"
version = "0.1.0"
edition = "2021"
publish = false

[dependencies]
oxigraph = { version = "*", default-features = false }
