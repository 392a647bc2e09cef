[package]
name = "promptr"
version = "0.1.0"
edition = "2021"
publish = false

[dependencies]
anyhow = "=1.0.104"
battery = "=0.7.8"
clap = { version = "=4.6.7", features = ["derive"] }
directories = "=6.0.0"
git2 = { version = "=0.21.0", default-features = false }
indoc = "=2.0.8"
itertools = "=0.15.0"
regex = "=1.13.1"
semver = "=1.0.28"
serde = { version = "=1.0.229", features = ["derive"] }
serde_json = "=1.0.154"
sysctl = "*"
