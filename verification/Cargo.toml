[package]
name = "nostr_shell"
version = "0.1.0"
edition = "2021"
publish = false

[dependencies]
chrono = "*"
nostr-sdk = "*"
rustyline = "*"
shlex = "*"
tokio = { version = "*", features = ["macros", "rt-multi-thread"] }
