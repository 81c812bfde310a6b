[package]
name = "nft_staking"
version = "0.1.0"
edition = "2021"
publish = false

[dependencies]
anchor-lang = { version = "0.32.2", features = ["init-if-needed"] }
anchor-spl = { version = "0.32.2", default-features = false, features = ["associated_token", "token"] }
mpl-core = "0.11.2"
