[package]
name = "bpfgen"
version = "0.1.0"
edition = "2021"
publish = false

[dependencies]
libseccomp = "*"
libc = "*"
clap = { version = "*", features = ["derive"] }
anyhow = "*"
