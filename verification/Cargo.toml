[package]
name = "content_searcher"
version = "0.1.0"
edition = "2021"
publish = false

[dependencies]
regex = "*"
semver = "*"
num_cpus = "*"
tokio = { version = "*", features = ["rt-multi-thread", "macros", "sync", "fs", "signal", "time"] }
futures = "*"
walkdir = "*"
indicatif = "*"
reqwest = { version = "*", default-features = false, features = ["json"] }
serde = { version = "*", features = ["derive"] }
