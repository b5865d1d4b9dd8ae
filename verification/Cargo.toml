[package]
name = "stringprep"
version = "0.1.0"
edition = "2021"
publish = false

[dependencies]
unicode-bidi = "*"
unicode-normalization = "*"
