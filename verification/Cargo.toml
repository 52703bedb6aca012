[package]
name = "npx-bin-helper"
version = "0.1.0"
edition = "2021"
publish = false

[dependencies]
anyhow = "1"
env_logger = "*"
log = "0.4"
thiserror = "*"
xflags = "0.3"
