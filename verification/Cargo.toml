[package]
name = "contactor"
version = "0.1.0"
edition = "2021"
publish = false

[dependencies]
anyhow = "1"
esp-idf-hal = "*"
esp-idf-sys = "*"
