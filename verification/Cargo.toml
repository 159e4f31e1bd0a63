[package]
name = "shadow_descriptor"
version = "0.1.0"
edition = "2021"
publish = false

[dependencies]
atomic_refcell = "=0.1.14"
libc = "=0.2.191"

[dev-dependencies]
nix = "=0.23.2"
