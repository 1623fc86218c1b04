[package]
name = "p2p_handshake"
version = "0.1.0"
edition = "2021"
publish = false

[dependencies]
aes = "=0.8.4"
ctr = "=0.9.2"
hex = "=0.4.3"
hmac = "=0.12.1"
rand = "=0.8.8"
rlp = "=0.5.2"
secp256k1 = { version = "=0.27.0", features = ["rand-std", "recovery"] }
sha2 = "=0.10.9"
sha3 = "=0.10.9"
tokio = { version = "=1.54.1", features = ["net", "io-util", "rt-multi-thread", "macros", "time"] }
