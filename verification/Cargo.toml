[package]
name = "match_pinyin_with_hanzi"
version = "0.1.0"
edition = "2021"
publish = false

[dependencies]
pinyin = "*"
pinyin-parser = "*"
