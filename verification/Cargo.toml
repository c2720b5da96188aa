[package]
name = "media_catalog"
version = "0.1.0"
edition = "2021"
publish = false

[dependencies]
imagesize = "0.9"
kamadak-exif = "0.5"
md-5 = "0.10"
