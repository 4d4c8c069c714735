[package]
name = "pastebin"
version = "0.1.0"
edition = "2021"
publish = false

[dependencies]
mime-sniffer = "*"
rand = "*"
zip = { version = "*", default-features = false, features = ["aes-crypto", "deflate"] }
