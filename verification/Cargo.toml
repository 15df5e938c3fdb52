[package]
name = "lizard"
version = "0.1.0"
edition = "2021"
publish = false

[dependencies]
confy = "*"
gtk = "*"
image = "*"
libappindicator = "*"
notify-rust = { version = "*", default-features = false, features = ["z"] }
rust-embed = "*"
serde = "*"
serde_derive = "*"
