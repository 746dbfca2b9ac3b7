[package]
name = "argon2_prompt"
version = "0.1.0"
edition = "2021"
publish = false

[dependencies]
argon2-kdf = "*"
base64 = "0.22"
rpassword = "7"
zeroize = "1"
