[package]
name = "room_cables"
version = "0.1.0"
edition = "2021"
publish = false

[dependencies]
regex = "=1.13.1"
calamine = "=0.37.0"
teloxide = { version = "=0.17.0", features = ["macros"] }
tokio = { version = "=1.54.1", features = ["rt-multi-thread", "macros"] }
dptree = "=0.5.1"
log = "=0.4.34"
pretty_env_logger = "=0.5.0"
takecell = "=0.1.1"
