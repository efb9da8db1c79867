[package]
name = "rissois"
version = "0.1.0"
edition = "2021"
publish = false

[dependencies]
chrono = "0.4"
clap = { version = "4", features = ["derive"] }
convert_case = "*"
expanduser = "*"
pdf-extract = "*"
uuid = { version = "1", features = ["v4"] }

[dev-dependencies]
regex = "1"
