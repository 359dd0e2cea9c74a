[package]
name = "ffind"
version = "0.1.0"
edition = "2021"
publish = false

[dependencies]
anstyle = "=1.0.14"
anyhow = "=1.0.104"
bstr = "=1.13.1"
clap = { version = "=4.6.7", features = ["derive"] }
crossbeam-channel = "=0.5.17"
globset = "=0.4.20"
ignore = "=0.4.33"
itertools = "=0.15.0"
libc = "=0.2.191"
mimalloc = "=0.1.52"
normpath = "=1.5.2"
regex = "=1.13.1"
signal-hook = "=0.3.18"

[dev-dependencies]
crossbeam-utils = "=0.8.23"
tempfile = "3"
