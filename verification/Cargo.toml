[package]
name = "entropy"
version = "0.1.0"
edition = "2021"
publish = false

[dependencies]
anyhow = "1"
bs58 = "=0.5.1"
bytemuck = { version = "1", features = ["derive"] }
clap = { version = "4", features = ["derive", "env"] }
ctrlc = "3"
owo-colors = "4"
pinocchio = { version = "=0.11.2", features = ["cpi"] }
pinocchio-system = "=0.6.1"
rand = "=0.8.8"
shellexpand = "3"
solana-program = "=5.1.0"
solana-sha256-hasher = { version = "=3.1.0", features = ["sha2"] }
tracing = "0.1"
tracing-subscriber = { version = "0.3", features = ["env-filter"] }
