[package]
name = "readeckbot"
version = "0.1.0"
edition = "2021"
publish = false

[dependencies]
log = "=0.4.34"
pretty_env_logger = "=0.5.0"
regex = "=1.13.1"
reqwest = { version = "=0.12.28", default-features = false, features = ["rustls-tls"] }
serde = { version = "=1.0.229", features = ["derive"] }
serde_json = "=1.0.154"
# Not used here: teloxide-core pulls it in, and 0.1.2 needs rustc 1.96.
takecell = "<0.1.2"
teloxide = { version = "=0.17.0", default-features = false, features = ["ctrlc_handler", "rustls"] }
tokio = { version = "=1.54.1", features = ["macros", "rt-multi-thread"] }
