[package]
name = "irlume-cli"
version = "0.1.0"
edition = "2021"
publish = false

[dependencies]
image = { version = "*", default-features = false, features = ["png", "jpeg"] }
libc = "*"
rand = "*"
rpassword = "*"
serde = { version = "*", features = ["derive"] }
serde_json = "*"
sha2 = "*"
zeroize = "*"
