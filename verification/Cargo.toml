[package]
name = "git_revise"
version = "0.1.0"
edition = "2021"
publish = false

[dependencies]
anyhow = "=1.0.104"
clap = { version = "=4.6.7", features = ["derive"] }
colored = "=3.1.1"
dirs = "=7.0.0"
dotenvy = "=0.15.7"
exitcode = "=1.1.2"
git2 = { version = "=0.21.0", default-features = false }
human-panic = "=2.0.8"
inquire = { version = "=0.9.4", features = ["editor"] }
realme = { version = "=0.2.4", features = ["toml"] }
reqwest = { version = "=0.13.5", default-features = false, features = ["json"] }
serde = { version = "=1.0.229", features = ["derive"] }
serde_json = "=1.0.151"
tera = "=2.4.0"
tokio = { version = "=1.53.2", features = ["rt", "rt-multi-thread", "macros"] }
toml = "=1.1.7"
