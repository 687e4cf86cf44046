[package]
name = "hero_rewards"
version = "0.1.0"
edition = "2021"
publish = false

[dependencies]
anchor-lang = "*"
sha3 = "*"
