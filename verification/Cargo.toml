[package]
name = "attendance_core"
version = "0.1.0"
edition = "2021"
publish = false

[dependencies]
rand = "0.9"
chrono = "0.4"
uuid = { version = "1", features = ["v4"] }
serde = { version = "1", features = ["derive"] }
serde_json = "1"
csv = "1"
mime = "0.3"
bcrypt = "*"
jsonwebtoken = "9"
actix = "0.13"
actix-web = "4"
actix-web-actors = "4"
actix-cors = "*"
actix-files = "*"
actix-multipart = "*"
sqlx = { version = "0.8", default-features = false, features = ["runtime-tokio", "sqlite", "chrono", "uuid"] }
tokio = { version = "1", features = ["rt-multi-thread", "macros", "time", "fs", "io-util"] }
futures-util = "0.3"
anyhow = "1"
log = "0.4"
env_logger = "*"
dotenvy = "*"
local-ip-address = "*"
webbrowser = "*"
qrcode = { version = "*", default-features = false }
image = { version = "0.25", default-features = false, features = ["png"] }
