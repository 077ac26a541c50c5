[package]
name = "errpile"
version = "0.1.0"
edition = "2021"
publish = false

[dependencies]
serde = { version = "=1.0.229", features = ["derive"] }
serde_json = "=1.0.151"
url = "=2.5.8"
base64 = "=0.23.1"
zip = { version = "=8.6.0", default-features = false }
tokio = { version = "=1.53.2", default-features = false, features = ["rt"] }
image = { version = "=0.25.10", default-features = false }
reqwest = { version = "=0.13.5", default-features = false, features = ["json"] }
sqlx = { version = "=0.9.0", default-features = false, features = ["runtime-tokio"] }
russh = "*"
russh-sftp = "*"
pdfium-render = "*"
graph-rs-sdk = "*"
