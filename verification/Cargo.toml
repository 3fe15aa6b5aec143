[package]
name = "win_tcache_multi"
version = "0.1.0"
edition = "2021"
publish = false

[dependencies]
clap = { version = "4", features = ["derive"] }
ctrlc = "3"
dunce = "1"
tokio = { version = "1", features = ["rt", "rt-multi-thread", "macros"] }
