[package]
name = "mcp7940n"
version = "0.1.0"
edition = "2021"
publish = false

[dependencies]
chrono = { version = "0.4", default-features = false }
embedded-hal = "1.0"
