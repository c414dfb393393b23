[package]
name = "attendance_pdf"
version = "0.1.0"
edition = "2021"
publish = false

[dependencies]
chrono = "0.4"
clap = { version = "4", features = ["derive"] }
image = "*"
printpdf = "0.7"
qrcode = "*"
serde = { version = "1", features = ["derive"] }
serde_json = "1"
thiserror = "1"
ureq = "2"
uuid = { version = "1", features = ["v4"] }
