[package]
name = "zk_battleship"
version = "0.1.0"
edition = "2021"
publish = false

[dependencies]
anchor-lang = "0.28"
ark-bn254 = "0.3"
ark-ec = "0.3"
ark-ff = "0.3"
groth16-solana = "0.0.1"
