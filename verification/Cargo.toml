[package]
name = "fme"
version = "0.1.0"
edition = "2021"
publish = false

[dependencies]
anyhow = "1"
atty = "0.2"
audiotags = "*"
clap = { version = "4", features = ["derive"] }
id3 = "*"
metaflac = "*"
mp4ameta = "*"
regex = "1"
