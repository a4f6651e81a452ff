[package]
name = "voice_clipper"
version = "0.1.0"
edition = "2021"
publish = false

[dependencies]
anyhow = "=1.0.104"
dotenv = "=0.15.0"
mp3lame-encoder = "=0.2.5"
serenity = { version = "0.12", default-features = false, features = ["client", "gateway", "model", "rustls_backend"] }
songbird = { version = "0.4", default-features = false, features = ["serenity", "gateway", "driver", "rustls", "receive"] }
tokio = { version = "1", features = ["macros", "rt-multi-thread"] }
