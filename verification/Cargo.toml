[package]
name = "stack_emulator"
version = "0.1.0"
edition = "2021"
publish = false

[dependencies]
anyhow = "=1.0.104"
base64 = "=0.23.1"
clap = { version = "=4.6.7", features = ["derive"] }
goblin = "=0.10.7"
iced-x86 = "=1.21.0"
log = "=0.4.34"
memchr = "=2.8.3"
tokio = { version = "=1.53.2", features = ["fs", "io-util", "macros", "net", "rt-multi-thread"] }
