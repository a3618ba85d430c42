[package]
name = "vault_access"
version = "0.1.0"
edition = "2021"
publish = false

[dependencies]
emerald-hwkey = "=0.7.0"
emerald-vault = "=0.36.0"
hdpath = "=0.7.0"
neon = "=1.1.2"
uuid = { version = "=1.29.0", features = ["v4"] }

[dev-dependencies]
bitcoin = "=0.32.102"
hmac = "=0.12.1"
pbkdf2 = "=0.12.2"
sha2 = "=0.10.9"
sha3 = "=0.10.9"
