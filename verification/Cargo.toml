[package]
name = "dabot"
version = "0.1.0"
edition = "2021"
publish = false

[dependencies]
async-openai = { version = "=0.42.1", default-features = false, features = ["chat-completion", "rustls-no-provider"] }
log = "*"
pretty_env_logger = "*"
rand = "*"
takecell = "=0.1.1"
teloxide = { version = "=0.17.0", default-features = false, features = ["rustls", "ctrlc_handler"] }
tokio = { version = "*", features = ["rt-multi-thread", "macros"] }
