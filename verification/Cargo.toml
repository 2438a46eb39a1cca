[package]
name = "shell_vars"
version = "0.1.0"
edition = "2021"
publish = false

[dependencies]
regex = "=1.13.1"
serde_json = "=1.0.154"
ansi_term = "=0.12.1"
ckb-sdk = "*"
tempfile = "3"
log = "0.4"
