[package]
name = "dirsort"
version = "0.1.0"
edition = "2021"
publish = false

[dependencies]
actix-files = "*"
actix-web = { version = "*", default-features = false, features = ["macros"] }
clap = { version = "*", features = ["derive"] }
clap-markdown = "*"
indicatif = "*"
notify-rust = "*"
rayon = "*"
serde = { version = "*", features = ["derive"] }
toml = "*"
walkdir = "*"
