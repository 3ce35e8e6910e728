[package]
name = "erc20_token"
version = "0.1.0"
edition = "2021"
publish = false

[dependencies]
ethers-contract = "2"
ethers-core = "2"
ethers-providers = "2"
