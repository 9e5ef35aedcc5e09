[package]
name = "usdt-impl"
version = "0.1.0"
edition = "2021"
publish = false

[dependencies]
dof = "*"
libc = "0.2"
proc-macro2 = "1"
quote = "1"
syn = { version = "1", features = ["full"] }
