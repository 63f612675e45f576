[package]
name = "xstream"
version = "0.1.0"
edition = "2021"
publish = false

[dependencies]
aes-siv = { version = "=0.8.0", features = ["pmac"] }
clear_on_drop = "=0.2.5"
hkdf = "=0.12.4"
rand = "=0.8.8"
sha2 = "=0.10.9"
x25519-dalek = "=2.0.1"
