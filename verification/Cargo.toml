[package]
name = "synthy"
version = "0.1.0"
edition = "2021"
publish = false

[dependencies]
wmidi = "4.0"
vst = "0.3"
fundsp = "0.9"
dirs = "4.0"
log = "0.4"
log-panics = "2.1"
simplelog = "0.12"
