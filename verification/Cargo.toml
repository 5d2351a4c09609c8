[package]
name = "enclave_proc"
version = "0.1.0"
edition = "2021"
publish = false

[dependencies]
inotify = { version = "=0.8.3", default-features = false }
kvm-bindings = { version = "*", default-features = false }
libc = "=0.2.191"
log = "=0.4.34"
