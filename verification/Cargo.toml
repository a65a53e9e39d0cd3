[package]
name = "stable_test"
version = "0.1.0"
edition = "2021"
publish = false

[dependencies]
pyth-client = "=0.5.1"
solana-program = "=5.1.0"
anchor-lang = "=1.2.1"
anchor-spl = "=1.2.1"
bytemuck = "*"
