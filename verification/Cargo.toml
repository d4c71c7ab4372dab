[package]
name = "commit_tool"
version = "0.1.0"
edition = "2021"
publish = false

[dependencies]
chrono = "0.4"
clap = "2"
env_logger = "*"
homedir = "*"
indicatif = "*"
inquire = { version = "*", features = ["editor"] }
log = "0.4"
regex = "1"
reqwest = { version = "0.12", default-features = false, features = ["json", "rustls-tls"] }
serde = { version = "1", features = ["derive"] }
serde_json = "1"
serde_yml = "*"
tokio = { version = "1", features = ["macros", "rt-multi-thread"] }
