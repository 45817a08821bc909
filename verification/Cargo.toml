[package]
name = "reaction_time"
version = "0.1.0"
edition = "2021"
publish = false

[dependencies]
futures = "0.3"
rand = "0.7"
termion = "1.5"
tokio = { version = "0.2", features = ["full"] }
tui = "0.8"
