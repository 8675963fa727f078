[package]
name = "vk_generator"
version = "0.3.2"
edition = "2021"
publish = false

[dependencies]
xml-rs = "0.8"
vk_api = "*"
