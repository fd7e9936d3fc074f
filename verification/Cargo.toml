[package]
name = "wasmvm"
version = "0.1.0"
edition = "2021"
publish = false

[dependencies]
cosmwasm-vm = "=3.0.10"
cosmwasm-std = "=3.0.10"
sha2 = "=0.10.9"
