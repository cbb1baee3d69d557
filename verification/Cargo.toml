[package]
name = "face_trainer"
version = "0.1.0"
edition = "2021"
publish = false

[dependencies]
anyhow = "*"
async-trait = "*"
clap = { version = "*", features = ["derive", "env"] }
dotenv = "*"
indicatif = "*"
mime_guess = "*"
reqwest = { version = "*", default-features = false, features = ["json", "multipart"] }
serde = { version = "*", features = ["derive"] }
tokio = { version = "*", features = ["full"] }
tracing = "*"
tracing-appender = "*"
tracing-bunyan-formatter = "*"
tracing-subscriber = { version = "*", features = ["env-filter"] }
