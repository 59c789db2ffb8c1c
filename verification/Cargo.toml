[package]
name = "pciutils"
version = "0.1.0"
edition = "2021"
publish = false

[dependencies]
clap = "*"
env_logger = "*"
pci-ids = "*"
pretty-hex = "*"
