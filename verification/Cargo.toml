[package]
name = "dubbo_build"
version = "0.1.0"
edition = "2021"
publish = false

[dependencies]
prettyplease = "0.2"
proc-macro2 = "=1.0.107"
prost-build = "=0.11.9"
quote = "=1.0.47"
syn = { version = "2", features = ["full"] }
