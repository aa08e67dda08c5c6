[package]
name = "github_notifier"
version = "0.1.0"
edition = "2021"
publish = false

[dependencies]
notify-rust = "4"
regex = "1"
reqwest = { version = "0.12", features = ["json"] }
serde = { version = "1", features = ["derive"] }
serde-aux = "4"
tokio = { version = "1", features = ["macros", "rt-multi-thread", "signal", "time"] }
