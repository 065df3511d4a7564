[package]
name = "invoicer"
version = "0.1.0"
edition = "2021"
publish = false

[dependencies]
chrono = { version = "0.4", default-features = false, features = ["now", "std"] }
discord-rpc-client = "*"
eframe = { version = "0.21", default-features = false, features = ["default_fonts", "glow"] }
egui = "0.21"
image = { version = "0.24", default-features = false, features = ["jpeg", "png"] }
image-base64 = "*"
native-dialog = "0.6"
printpdf = { version = "0.5", default-features = false }
serde = { version = "1", features = ["derive"] }
serde_json = "1"
