[package]
name = "pswdmng"
version = "0.1.0"
edition = "2021"
publish = false

[dependencies]
rusqlite = { version = "*", features = ["bundled"] }
aes-gcm = "*"
sha3 = "*"
rand = "0.8"
clap = "*"
