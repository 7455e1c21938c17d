[package]
name = "hinjaku"
version = "0.1.0"
edition = "2021"
publish = false

[dependencies]
rust-ini = "=0.21.3"
image = { version = "=0.25.10", default-features = false, features = ["gif", "jpeg", "png", "webp", "bmp"] }
zip = { version = "=2.6.1", default-features = false, features = ["deflate"] }
log = "=0.4.35"
eframe = { version = "0.27", default-features = false, features = ["glow", "default_fonts"] }
egui = "0.27"
