[package]
name = "texpresso"
version = "0.1.0"
edition = "2021"
publish = false

[dependencies]
cpu-time = "*"
libc = "*"
tectonic_errors = "*"
tectonic_status_base = "*"
tectonic_io_base = "*"
