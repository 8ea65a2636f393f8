[package]
name = "raydium_liquidity_interaction"
version = "0.1.0"
edition = "2021"
publish = false

[dependencies]
anchor-lang = "=0.30.1"
anchor-spl = "=0.30.1"
raydium-cp-swap = { version = "=0.1.1392", features = ["cpi"] }
