[package]
name = "vidup"
version = "0.1.0"
edition = "2021"
publish = false

[dependencies]
keyring = { version = "=3.6.3", features = ["windows-native", "apple-native", "linux-native"] }
serde_json = "=1.0.151"
serde = { version = "*", features = ["derive"] }
reqwest = { version = "*", default-features = false, features = ["blocking", "json", "rustls-tls"] }
clap = { version = "*", features = ["derive"] }
dotenv = "*"
ffmpeg-sidecar = "*"
indicatif = "*"
arboard = "*"
winapi = { version = "*", features = ["consoleapi", "processenv", "winbase", "wincon"] }
