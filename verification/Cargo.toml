[package]
name = "debug_session"
version = "0.1.0"
edition = "2021"
publish = false

[dependencies]
tracing-subscriber = { version = "=0.3.23", default-features = false, features = ["fmt", "ansi", "smallvec", "std"] }
env_logger = "=0.11.11"
log = "=0.4.34"

[dev-dependencies]
tracing-core = "=0.1.36"
