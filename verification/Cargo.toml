[package]
name = "mine"
version = "0.1.0"
edition = "2021"
publish = false

[dependencies]
abut = "*"
classified = "*"
liaise = "*"
nix = { version = "*", features = ["user", "socket", "fs"] }
