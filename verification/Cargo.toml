[package]
name = "poolbench"
version = "0.1.0"
edition = "2021"
publish = false

[dependencies]
libloading = "*"
perf_monitor = "*"
rayon = "*"
