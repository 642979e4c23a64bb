[package]
name = "potracker_core"
version = "0.1.0"
edition = "2021"
publish = false

[dependencies]
base64 = "*"
uuid = { version = "*", features = ["v4"] }
serde = { version = "*", features = ["derive"] }
serde_json = "*"
reqwest = { version = "*", default-features = false, features = ["json"] }
lettre = { version = "*", default-features = false, features = ["smtp-transport", "builder"] }
tiny_http = "*"
