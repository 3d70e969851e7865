[package]
name = "latex2mmlc"
version = "0.1.0"
edition = "2021"
publish = false

[dependencies]
bumpalo = "*"
serde = { version = "*", features = ["derive"] }
strum_macros = "*"
