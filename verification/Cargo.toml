[package]
name = "dpmhub_gui"
version = "0.1.0"
edition = "2021"
publish = false

[dependencies]
url = "=2.5.8"
ureq = { version = "=2.12.1", default-features = false, features = ["json"] }
serde = { version = "=1.0.229", features = ["derive"] }
serde_json = "=1.0.154"
thiserror = "=1.0.69"
log = "=0.4.35"
dotenv = "=0.15.0"
lazy_static = "=1.5.1"
fast_log = "=1.7.10"
tokio = { version = "=1.54.1", features = ["rt", "rt-multi-thread", "process", "macros"] }
eframe = { version = "=0.23.0", default-features = false, features = ["default_fonts", "glow", "x11"] }
egui-modal = "=0.2.5"
