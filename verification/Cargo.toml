[package]
name = "toyvpn"
version = "0.1.0"
edition = "2021"
publish = false

[dependencies]
anyhow = "=1.0.104"
clap = { version = "=4.6.7", features = ["derive"] }
libc = "=0.2.190"
log = "=0.4.34"
thiserror = "=1.0.69"
tokio = { version = "=1.53.2", features = ["full"] }
tun = { version = "=0.8.14", features = ["async"] }
