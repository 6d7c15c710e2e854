[package]
name = "telegram_ai_analyzer"
version = "0.1.0"
edition = "2021"
publish = false

[dependencies]
lopdf = "=0.45.0"
anyhow = "1"
log = "0.4"
serde = { version = "1", features = ["derive"] }
tokio = { version = "1", features = ["rt-multi-thread", "macros", "fs"] }
reqwest = { version = "0.11", default-features = false, features = ["json", "rustls-tls"] }
teloxide = { version = "0.12", default-features = false, features = ["rustls", "macros", "ctrlc_handler"] }
dptree = "0.3"
dotenvy = "0.15"
pretty_env_logger = "0.5"
# pinned: teloxide pulls takecell transitively, and 0.1.2 requires a newer
# rustc than this project's toolchain
takecell = "=0.1.1"
