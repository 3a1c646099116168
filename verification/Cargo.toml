[package]
name = "pinyin_parser"
version = "0.1.0"
edition = "2021"

[dependencies]
unicode-segmentation = "=1.13.3"

[dev-dependencies]
unicode-normalization = "0.1"
