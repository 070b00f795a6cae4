[package]
name = "dumpsys_rs"
version = "0.1.0"
edition = "2021"
publish = false

[dependencies]
binder_ndk = "*"
os_pipe = "=1.2.3"
