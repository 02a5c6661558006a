[package]
name = "rusty_key"
version = "0.1.0"
edition = "2021"
publish = false
rust-version = "1.95"

[dependencies]
rand = "=0.8.8"
argon2 = "=0.5.3"
chacha20poly1305 = "=0.10.1"
thiserror = "=2.0.21"
anyhow = "=1.0.104"
async-trait = "=0.1.92"
tokio = { version = "=1.54.1", features = ["macros", "rt-multi-thread", "sync"] }
sqlx = { version = "=0.8.6", default-features = false, features = ["sqlite", "runtime-tokio"] }
teloxide = { version = "=0.13.0", default-features = false, features = ["ctrlc_handler"] }
# teloxide depends on takecell; its newest release needs a newer rustc than the one here.
takecell = "<0.1.2"
tracing = "=0.1.44"
tracing-subscriber = { version = "=0.3.23", default-features = false, features = ["env-filter", "fmt", "std"] }
