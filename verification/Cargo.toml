[package]
name = "launch_nvim"
version = "0.1.0"
edition = "2021"
publish = false

[dependencies]
chrono = "0.4"
regex = "1"
serde = { version = "1", features = ["derive"] }
serde_json = "1"
nvim-oxi = { version = "*", features = ["neovim-0-10"] }
