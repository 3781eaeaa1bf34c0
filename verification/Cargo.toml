[package]
name = "crates_mirror"
version = "0.1.0"
edition = "2021"
publish = false

[dependencies]
serde_json = "*"
base64 = "*"
hmac = "*"
sha1 = "*"
chrono = "*"
git2 = { version = "*", default-features = false, features = ["vendored-libgit2"] }
reqwest = { version = "*", default-features = false, features = ["rustls-tls", "stream", "json"] }
tokio = { version = "*", features = ["full"] }
actix-web = { version = "*", default-features = false, features = ["macros"] }
bytes = "*"
tokio-stream = "*"
async-channel = "*"
serde = { version = "*", features = ["derive"] }
sd-notify = "*"
dotenv = "*"
