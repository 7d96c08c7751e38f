[package]
name = "orbtk"
version = "0.1.0"
edition = "2021"
publish = false

[dependencies]
libremarkable = "0.5.0"
orbtk-utils = "0.3.1-alpha4"
