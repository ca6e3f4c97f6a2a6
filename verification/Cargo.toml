[package]
name = "ngx"
version = "0.1.0"
edition = "2021"
publish = false

[dependencies]
nginx-sys = { version = "=0.5.0", features = ["vendored"] }
