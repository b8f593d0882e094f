[package]
name = "eventmail"
version = "0.1.0"
edition = "2021"
publish = false

[dependencies]
chrono = "0.4"
clap = { version = "4", features = ["derive"] }
dirs = "*"
indexmap = { version = "2", features = ["serde"] }
lettre = "*"
regex = "1"
serde = { version = "1", features = ["derive"] }
text_placeholder = "*"
toml = "*"
