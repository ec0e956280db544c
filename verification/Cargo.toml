[package]
name = "bootcamp3"
version = "0.1.0"
edition = "2021"
publish = false

[dependencies]
solana-sdk = "=1.18.26"
solana-program = "=1.18.26"
spl-token = "=4.0.3"
spl-associated-token-account = "=3.0.4"
mpl-token-metadata = "=4.1.2"
anchor-lang = { version = "=0.30.1", features = ["init-if-needed"] }
anchor-spl = { version = "=0.30.1", default-features = false, features = ["associated_token", "token", "token_2022"] }
dotenvy = "=0.15.7"
tokio = { version = "=1.54.1", features = ["macros", "rt-multi-thread"] }
