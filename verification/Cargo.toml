[package]
name = "sitro"
version = "0.1.0"
edition = "2021"
publish = false

[dependencies]
hayro = "*"
hayro-interpret = "*"
imagesize = "*"
log = "*"
rayon = "*"
regex = "*"
tempdir = "*"
tiny-skia = "*"
walkdir = "*"
