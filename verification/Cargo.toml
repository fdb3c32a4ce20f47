[package]
name = "dice_settlement"
version = "0.1.0"
edition = "2021"
publish = false

[dependencies]
solana-program = "=2.3.0"
anchor-lang = "0.31"
