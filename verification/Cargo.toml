[package]
name = "pdftext"
version = "0.1.0"
edition = "2021"
publish = false

[dependencies]
pdf = "=0.8.1"
anyhow = "*"
