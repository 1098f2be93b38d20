[package]
name = "pdf_generator"
version = "0.1.0"
edition = "2021"

[dependencies]
printpdf = { version = "=0.8.2", features = ["png", "jpeg"] }
taffy = "=0.15.0"
