[package]
name = "capturebot"
version = "0.1.0"
edition = "2021"
publish = false

[dependencies]
chrono = "=0.4.45"
log = "=0.4.34"
organic = "=0.1.12"
pretty_env_logger = "=0.5.0"
reqwest = { version = "=0.13.5", default-features = false }
serde = { version = "=1.0.229", features = ["derive"] }
serde_json = "=1.0.154"
serde_with = "=3.24.0"
slugify = "=0.1.0"
# Not used directly. teloxide-core depends on takecell 0.1, and takecell 0.1.2
# asks for rustc 1.96; this line holds it at the release that rustc 1.95 builds.
takecell = "=0.1.1"
teloxide = { version = "=0.13.0", default-features = false, features = ["ctrlc_handler", "rustls"] }
tokio = { version = "=1.54.1", features = ["rt-multi-thread", "macros", "fs", "sync"] }
uuidgen = "=0.1.0"
walkdir = "=2.5.0"
