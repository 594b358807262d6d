[package]
name = "cookie_session"
version = "0.1.0"
edition = "2021"
publish = false

[dependencies]
cookie_store = "*"
log = "*"
reqwest = { version = "*", default-features = false, features = ["cookies"] }
reqwest_cookie_store = "*"

[dev-dependencies]
cookie = "*"
url = "*"
