[package]
name = "anon_chat"
version = "0.1.0"
edition = "2021"
publish = false

[dependencies]
chrono = "=0.4.45"
dotenv = "=0.15.0"
dptree = "=0.3.0"
log = "=0.4.34"
once_cell = "=1.21.4"
pretty_env_logger = "=0.5.0"
rusqlite = "=0.31.0"
# teloxide-core asks for takecell 0.1, and takecell 0.1.2 needs rustc 1.96:
# this line holds it at the last release that older compilers build.
takecell = "=0.1.1"
teloxide = { version = "=0.12.2", features = ["macros"] }
tokio = { version = "=1.54.1", features = ["rt-multi-thread", "macros", "sync"] }
