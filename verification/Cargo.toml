[package]
name = "tickeys"
version = "0.5.0"
edition = "2021"
publish = false

[dependencies]
time = "=0.1.45"
libc = "=0.2.191"
objc = "=0.2.7"
block = "=0.1.6"
openal-sys = "=1.16.0"
hyper = "=0.10.16"
rustc-serialize = "=0.3.25"
