[package]
name = "crusty_crawler"
version = "0.1.0"
edition = "2021"
publish = false

[dependencies]
bcrypt = "*"
chrono = "0.4"
rand = "0.9"
tokio = { version = "1", features = ["rt-multi-thread", "net", "sync", "time", "macros"] }
axum = "*"
tower-http = { version = "*", features = ["fs"] }
serde = { version = "1", features = ["derive"] }
serde_json = "1"
sysinfo = "*"
hardware-query = "*"
rpassword = "*"
ctrlc = "*"
image = { version = "*", default-features = false, features = ["png"] }
eframe = { version = "*", default-features = false, features = ["default_fonts", "glow", "x11"] }
