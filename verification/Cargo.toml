[package]
name = "oxitext-raster"
version = "0.1.0"
edition = "2021"
publish = false

[dependencies]
ttf-parser = "0.25"
fontdue = "0.9"
lru = "0.12"
png = "0.18"
ab_glyph = "0.2"
