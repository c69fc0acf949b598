[package]
name = "vault"
version = "0.1.0"
edition = "2021"
publish = false

[dependencies]
bytemuck = { version = "*", features = ["derive"] }
solana-program = "*"
spl-pod = "*"
spl-token = { version = "*", features = ["no-entrypoint"] }
