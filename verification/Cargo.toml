[package]
name = "filename_translator"
version = "0.1.0"
edition = "2021"
publish = false

[dependencies]
lingua = { version = "*", default-features = false, features = ["english", "chinese", "japanese", "korean"] }
serde_json = "*"
zip = { version = "*", default-features = false }
chrono = "*"
dotenv = "*"
reqwest = { version = "*", default-features = false, features = ["blocking"] }
