[package]
name = "xnb_assets"
version = "0.1.0"
edition = "2021"
publish = false

[dependencies]
lzxd = "*"
bcndecode = "*"
roxmltree = "*"
