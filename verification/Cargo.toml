[package]
name = "simba_installer"
version = "0.1.0"
edition = "2021"
publish = false

[dependencies]
eframe = { version = "0.31", default-features = false, features = ["default_fonts", "glow", "x11"] }
image = { version = "0.25", default-features = false, features = ["png"] }
reqwest = { version = "0.12", default-features = false, features = ["blocking", "rustls-tls"] }
serde = { version = "1", features = ["derive"] }
serde_json = "1"
