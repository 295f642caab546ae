[package]
name = "gliner_rs_php"
version = "0.1.0"
edition = "2021"
publish = false

[dependencies]
ext-php-rs = "*"
gline-rs = "*"
orp = "*"
