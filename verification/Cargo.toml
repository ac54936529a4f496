[package]
name = "mint_watch"
version = "0.1.0"
edition = "2021"
publish = false

[dependencies]
bs58 = "=0.5.1"
chrono = "=0.4.45"
dotenv = "=0.15.0"
fern = { version = "=0.6.2", features = ["colored"] }
futures-util = "=0.3.34"
log = "=0.4.34"
solana-program = "=1.18.26"
solana-sdk = "=1.18.26"
spl-token = { version = "=4.0.3", features = ["no-entrypoint"] }
tokio = { version = "=1.54.1", features = ["macros", "rt-multi-thread", "signal", "time"] }
