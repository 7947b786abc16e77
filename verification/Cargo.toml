[package]
name = "mach_ports"
version = "0.1.0"
edition = "2021"
publish = false

[dependencies]
mach2 = "0.4"
page_size = "0.6"
