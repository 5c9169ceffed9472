[package]
name = "cacheexec"
version = "0.1.0"
edition = "2021"
publish = false

[dependencies]
clap = { version = "=4.6.7", features = ["derive"] }
humantime = "=2.4.0"
libc = "=0.2.191"
sha2 = "=0.10.9"
tempfile = "=3.27.0"
