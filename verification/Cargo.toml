[package]
name = "pagenine"
version = "0.1.0"
edition = "2021"
publish = false

[dependencies]
async-trait = "*"
chrono = "*"
clap = { version = "*", features = ["derive"] }
log = "*"
notify-rust = "*"
reqwest = { version = "*", default-features = false, features = ["form", "json"] }
serde = { version = "*", features = ["derive"] }
simple_logger = "*"
tokio = { version = "*", features = ["macros", "rt-multi-thread", "time"] }
