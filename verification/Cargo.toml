[package]
name = "anvel"
version = "0.1.0"
edition = "2021"
publish = false

[dependencies]
dirs = "6"
eframe = { version = "=0.33.3", default-features = false, features = ["glow", "default_fonts", "x11"] }
egui_extras = { version = "=0.33.3", default-features = false }
serde = { version = "1", features = ["derive"] }
serde_json = "1"
actix = "0.13"
actix-web = { version = "4", default-features = false, features = ["macros"] }
actix-web-actors = "4"
actix-files = "0.6"
actix-multipart = "0.7"
futures-util = "0.3"
tokio = { version = "1", features = ["fs", "io-util", "rt", "macros", "net", "sync", "time"] }
reqwest = { version = "0.12", default-features = false, features = ["json", "multipart"] }
local-ip-address = "0.6"
open = "5"
