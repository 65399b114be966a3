[package]
name = "tetrotime"
version = "0.1.0"
edition = "2021"
publish = false

[dependencies]
anyhow = "=1.0.104"
chrono = { version = "=0.4.45", default-features = false, features = ["clock"] }
clap = { version = "=4.6.7", features = ["derive"] }
pixel_loop = { version = "=0.3.0", default-features = false, features = ["crossterm"] }
