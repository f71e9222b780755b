[package]
name = "headlines"
version = "0.1.0"
edition = "2021"
publish = false

[dependencies]
url = "*"
ureq = "*"
serde = { version = "*", features = ["derive"] }
serde_json = "*"
confy = "*"
dotenv = "*"
termimad = "*"
tracing = "*"
tracing-subscriber = "*"
