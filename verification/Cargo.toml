[package]
name = "kcom"
version = "0.1.0"
edition = "2021"
publish = false

[dependencies]
wdk-sys = "*"
utf16_lit = "*"
paste = "*"
async-trait = "*"
