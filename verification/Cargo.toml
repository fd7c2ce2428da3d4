[package]
name = "patch_build"
version = "0.1.0"
edition = "2021"
publish = false

[dependencies]
which = "4"
libc = "0.2"
serde = { version = "1", features = ["derive"] }
sha2 = "0.10"
