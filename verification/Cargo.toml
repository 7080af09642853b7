[package]
name = "x509_lint"
version = "0.1.0"
edition = "2021"
publish = false

[dependencies]
base64 = "*"
clap = { version = "*", features = ["derive"] }
colored = "*"
x509-parser = "*"
