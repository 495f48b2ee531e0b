[package]
name = "ansi_html"
version = "0.1.0"
edition = "2021"
publish = false

[dependencies]
vte = "0.13"
