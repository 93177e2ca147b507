[package]
name = "ciri"
version = "0.1.0"
edition = "2021"
publish = false

[dependencies]
id-arena = "*"
three-d = { version = "*", default-features = false }
three-d-asset = { version = "*", default-features = false }
glam = "*"
anyhow = "*"
futures = "*"
log = "*"
fern = "*"
libm = "*"
