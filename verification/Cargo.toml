[package]
name = "bmp2png"
version = "0.1.0"
edition = "2021"
publish = false

[dependencies]
anyhow = "=1.0.104"
embedded-graphics = "=0.7.1"
ignore = "=0.4.33"
png = "=0.17.16"
tinybmp = "=0.3.3"
