[package]
name = "pan"
version = "0.1.0"
edition = "2021"
publish = false

[dependencies]
nom-sql = "0.0.11"
clap = "2.34.0"
rustyline = "8.2.0"
slog = "2.7.0"
slog-term = "2.9.2"
