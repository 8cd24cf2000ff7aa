[package]
name = "vtracer_capi"
version = "0.1.0"
edition = "2021"
publish = false

[dependencies]
vtracer = "0.6"
visioncortex = "0.8"
