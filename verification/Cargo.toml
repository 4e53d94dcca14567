[package]
name = "relay_chain_minimal_node"
version = "0.1.0"
edition = "2021"
publish = false

[dependencies]
hashbrown = "*"
futures = "*"
futures-channel = "*"
tokio = { version = "*", features = ["rt", "rt-multi-thread"] }
tracing = "*"
async-trait = "*"
url = "*"
trie-db = "*"
hash-db = "*"
