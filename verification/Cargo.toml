[package]
name = "artefact"
version = "0.1.0"
edition = "2021"
publish = false

[dependencies]
zune-jpeg = "*"
rayon = "*"
