[package]
name = "circular_transaction_exporter"
version = "0.1.0"
edition = "2021"
publish = false

[dependencies]
bincode = "1.3"
bs58 = "0.5"
crossbeam-channel = "0.5"
hex = "0.4"
log = "0.4"
prost = "0.14"
serde_json = "1"
solana-hash = "3"
solana-keypair = "3"
solana-metrics = "~3.0"
solana-packet = "3"
solana-perf = "~3.0"
solana-rpc-client = "~3.0"
solana-sha256-hasher = { version = "3", features = ["sha2"] }
solana-signer = "3"
solana-system-transaction = "3"
solana-transaction = { version = "3", features = ["serde", "bincode"] }
tokio = { version = "1", features = ["macros", "rt", "rt-multi-thread", "signal", "sync", "time"] }
tonic = { version = "0.14", features = ["tls-native-roots", "tls-ring"] }
tonic-prost = "0.14"
