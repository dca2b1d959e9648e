[package]
name = "quantum_blockchain"
version = "0.1.0"
edition = "2021"
publish = false

[dependencies]
anyhow = "*"
bincode = "1"
hex = "*"
log = "*"
once_cell = "*"
oqs = "*"
pqcrypto-dilithium = "*"
pqcrypto-traits = "*"
regex = "*"
rusqlite = { version = "*", features = ["bundled"] }
secrecy = "0.8"
serde = { version = "*", features = ["derive"] }
serde_json = "*"
simplelog = "*"
sodiumoxide = "*"
time = { version = "*", features = ["macros", "formatting"] }
tracing = "*"
zeroize = "*"
