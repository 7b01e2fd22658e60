[package]
name = "escrow"
version = "0.1.0"
edition = "2021"
publish = false

[dependencies]
solana-program = "=5.1.0"
anchor-lang = "=1.2.1"
anchor-spl = "=1.2.1"
