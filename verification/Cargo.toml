[package]
name = "archie"
version = "0.1.0"
edition = "2021"
publish = false

[dependencies]
scraper = "*"
gemini-rust = "*"
reqwest = "*"
tokio = { version = "1", features = ["macros", "rt-multi-thread"] }
dotenv = "0.15"
