[package]
name = "typwriter"
version = "0.1.0"
edition = "2021"
publish = false

[dependencies]
typst = "=0.15.1"
typst-kit = { version = "=0.15.1", features = ["embedded-fonts", "scan-fonts", "system-files", "system-downloader", "datetime"] }
ecow = "=0.2.6"
