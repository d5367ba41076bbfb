[package]
name = "karakup"
version = "0.1.0"
edition = "2021"
publish = false

[dependencies]
clap = { version = "=4.6.7", features = ["derive"] }
clap_complete = "=4.6.11"
color-eyre = "=0.6.5"
dialoguer = "=0.11.0"
indicatif = "=0.17.11"
octocrab = "=0.42.1"
reqwest = { version = "=0.12.28", default-features = false, features = ["rustls-tls"] }
tempfile = "=3.27.0"
tokio = { version = "=1.54.1", features = ["macros", "rt-multi-thread"] }
