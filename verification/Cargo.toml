[package]
name = "cpu_chart"
version = "0.1.0"
edition = "2021"
publish = false

[dependencies]
charming = { version = "*", features = ["ssr"] }
resvg = "*"
sysinfo = "*"
usvg = "*"
