[package]
name = "kagura"
version = "0.1.0"
edition = "2021"
publish = false

[dependencies]
image = "*"
confy = "*"
directories = "*"
serde = { version = "*", features = ["derive"] }
