[package]
name = "canvas_hub"
version = "0.1.0"
edition = "2021"
publish = false

[dependencies]
actix = "*"
actix-files = "*"
actix-web = "*"
actix-web-actors = "*"
base64 = "*"
image = "*"
imageproc = "*"
serde = { version = "*", features = ["derive"] }
serde_json = "*"
