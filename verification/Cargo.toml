[package]
name = "storage"
version = "0.1.0"
edition = "2021"
publish = false

[dependencies]
borsh = "=0.10.4"
yaml-rust = "=0.4.5"
solana-program = "=1.18.26"
solana-sdk = "=1.18.26"
home = "=0.5.12"
clap = "=3.2.25"
async-process = "1"
futures = "0.3"
