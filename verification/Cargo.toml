[package]
name = "bubblegum_cpi"
version = "0.1.0"
edition = "2021"
publish = false

[dependencies]
mpl-bubblegum = "=2.1.1"
mpl-token-metadata = "=5.1.1"
solana-program = "=2.3.0"
spl-account-compression = { version = "=1.0.0", features = ["no-entrypoint"] }
spl-associated-token-account = { version = "=8.0.0", features = ["no-entrypoint"] }
spl-noop = { version = "=1.0.0", features = ["no-entrypoint"] }
spl-token = { version = "=9.0.0", features = ["no-entrypoint"] }
url = "=2.5.8"
