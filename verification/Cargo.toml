[package]
name = "vault_decrypt"
version = "0.1.0"
edition = "2021"
publish = false

[dependencies]
aes = "=0.9.3"
argon2 = "=0.6.0"
base64 = "=0.23.1"
cbc = { version = "=0.2.1", features = ["alloc"] }
cipher = { version = "=0.5.2", features = ["alloc", "block-padding"] }
hex = "=0.4.3"
pbkdf2 = "=0.13.0"
sha2 = "=0.11.0"
serde = { version = "=1.0.229", features = ["derive"] }
serde_json = "=1.0.151"
reqwest = { version = "=0.13.5", default-features = false, features = ["json", "form"] }
tokio = { version = "=1.53.2", features = ["macros", "rt-multi-thread"] }
