[package]
name = "voxea"
version = "0.1.0"
edition = "2021"
publish = false

[dependencies]
anyhow = "1"
cpal = "0.15"
hound = "3.5"
libc = "0.2"
libloading = "0.8"
log = "0.4"
memory-stats = "1"
mimalloc = "0.1"
ringbuf = "0.4"
rubato = "0.15"
rustc-hash = "2"
winit = "0.30"
