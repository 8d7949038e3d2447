[package]
name = "proj"
version = "0.16.1"
edition = "2021"
publish = false

[dependencies]
geo-types = "0.5"
libc = "0.2"
num-traits = "0.2"
proj-sys = { version = "=0.16.4", features = ["nobuild"] }
reqwest = { version = "=0.10.10", features = ["blocking"] }
thiserror = "1.0"
