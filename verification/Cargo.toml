[package]
name = "tunnel_client"
version = "0.1.0"
edition = "2021"
publish = false

[dependencies]
clap = { version = "4", features = ["derive"] }
dialoguer = "0.11"
directories = "5"
serde = { version = "1", features = ["derive"] }
serde_json = "1"
ssh-key = "0.6"
tungstenite = { version = "0.21", features = ["rustls-tls-webpki-roots"] }
url = "2"
uuid = { version = "1", features = ["v4"] }
