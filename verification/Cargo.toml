[package]
name = "jit_coordinator"
version = "0.1.0"
edition = "2021"
publish = false

[dependencies]
crossbeam-channel = "*"
ldk-node = "*"
ctrlc = "*"
env_logger = "*"
log = "*"
