[package]
name = "plugin_bridge"
version = "0.1.0"
edition = "2021"
publish = false

[dependencies]
anyhow = "1"
cairo-lang-defs = "2"
cairo-lang-macro = "0.1"
cairo-lang-macro-stable = "1"
cairo-lang-syntax = "2"
camino = "1"
libloading = "0.8"
