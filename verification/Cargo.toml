[package]
name = "memecoin"
version = "0.1.0"
edition = "2021"
publish = false

[dependencies]
solana-program = "=1.18.26"
bs58 = "=0.4.0"
anchor-lang = "=0.30.1"
anchor-spl = { version = "=0.30.1", features = ["metadata"] }
rand = "=0.8.8"
rayon = "=1.12.0"
mysql = { version = "=28.0.4", default-features = false, features = ["minimal-rust"] }
raydium-cp-swap = { version = "=0.1.1392", features = ["cpi"] }
