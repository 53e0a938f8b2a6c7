[package]
name = "kvm_ioctls"
version = "0.1.0"
edition = "2021"
publish = false

[dependencies]
kvm-bindings = "*"
libc = "0.2"
