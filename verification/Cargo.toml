[package]
name = "inquire"
version = "0.1.0"
edition = "2021"
publish = false

[dependencies]
unicode-segmentation = "1"
newline-converter = "*"
crossterm = "*"
chrono = "0.4"
lazy_static = "1"
thiserror = "*"
termion = "*"
