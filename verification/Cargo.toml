[package]
name = "staking-miner"
version = "0.1.0"
edition = "2021"
publish = false

[dependencies]
frame-support = "*"
sp-runtime = "*"
frame-election-provider-support = "*"
