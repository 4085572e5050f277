[package]
name = "psemu"
version = "0.1.0"
edition = "2021"
publish = false

[dependencies]
clap = { version = "=4.6.7", features = ["derive"] }
ctrlc = "=3.5.2"
crossbeam-channel = "=0.5.17"
rustyline = "*"
image = { version = "*", default-features = false, features = ["png"] }
psdisasm = "*"
