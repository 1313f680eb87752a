[package]
name = "gmail_cli"
version = "0.1.0"
edition = "2021"
publish = false

[dependencies]
anyhow = "=1.0.104"
chrono = "=0.4.45"
clap = { version = "=4.6.7", features = ["derive"] }
comfy-table = "=7.2.2"
io-gmail = "=0.5.0"
log = "=0.4.35"
mail-parser = "=0.9.4"
pimalaya-toolbox = { version = "=0.0.4", default-features = false, features = ["terminal"] }
rfc2047-decoder = "=1.1.2"
secrecy = "=0.10.3"
serde = { version = "=1.0.229", features = ["derive"] }
