[package]
name = "phoneme_kana"
version = "0.1.0"
edition = "2021"
publish = false

[dependencies]
wana_kana = "*"
