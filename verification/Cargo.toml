[package]
name = "pyree"
version = "0.1.0"
edition = "2021"
publish = false

[dependencies]
rand = "=0.8.5"
noise = "0.9"
rosc = "0.10"
strum = "0.26"
strum_macros = "0.26"
futures = "0.3"
