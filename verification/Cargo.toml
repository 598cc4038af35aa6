[package]
name = "massive_renamer"
version = "0.1.0"
edition = "2021"
publish = false

[dependencies]
chardet = "0.2"
clap = "2"
encoding = "0.2"
rayon = "1"
regex = "1"
