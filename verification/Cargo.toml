[package]
name = "nova_easing"
version = "0.1.0"
edition = "2021"
publish = false

[dependencies]
num-traits = "0.2"
plotters = { version = "0.3", default-features = false, features = ["bitmap_backend", "bitmap_encoder", "line_series"] }

[dev-dependencies]
approx = "0.5"
