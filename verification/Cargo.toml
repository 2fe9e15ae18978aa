[package]
name = "rustsbi_qemu"
version = "0.1.0"
edition = "2021"
publish = false

[dependencies]
rustsbi = { version = "=0.4.1", features = ["machine"] }
riscv = "=0.8.0"
spin = "=0.9.9"
clap = "=2.34.0"
