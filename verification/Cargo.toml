[package]
name = "unofficial-messenger-next"
version = "0.1.5"
edition = "2021"
publish = false

[dependencies]
arboard = "3"
base64 = "0.22"
image = "0.25"
reqwest = { version = "0.12", features = ["blocking"] }
serde = { version = "1", features = ["derive"] }
serde_json = "1"
url = "2"
