[package]
name = "sev-snp"
version = "0.1.0"
edition = "2021"
publish = false

[dependencies]
zeroize = "1"
libc = "0.2"

[dev-dependencies]
rand = "*"
