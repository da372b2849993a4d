[package]
name = "accuchek"
version = "0.1.0"
edition = "2021"
publish = false

[dependencies]
chrono = "=0.4.45"
dirs = "=7.0.0"
egui_plot = "=0.32.1"
env_logger = "=0.11.11"
log = "=0.4.34"
printpdf = { version = "=0.8.2", default-features = false }
rfd = "=0.15.4"
rusb = "=0.9.4"
rusqlite = "=0.41.0"
serde = { version = "=1.0.229", features = ["derive"] }
serde_json = "=1.0.154"
thiserror = "=2.0.21"
