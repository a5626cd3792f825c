[package]
name = "rustic"
version = "0.1.0"
edition = "2021"
publish = false

[dependencies]
anyhow = "1"
clap = { version = "4", features = ["derive"] }
fs_extra = "1"
gray_matter = "0.2"
pulldown-cmark = "0.13"
tera = "1"
walkdir = "2"
