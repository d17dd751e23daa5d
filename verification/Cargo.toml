[package]
name = "rbridger"
version = "0.1.0"
edition = "2021"
publish = false

[dependencies]
dirs = "6"
eframe = { version = "0.29", default-features = false, features = ["default_fonts", "glow", "x11"] }
evalexpr = "11"
log = "0.4"
log4rs = { version = "1", default-features = false, features = ["config_parsing", "yaml_format", "file_appender", "console_appender"] }
serde = { version = "1", features = ["derive"] }
serde_json = "1"
serde_yaml = "0.9"
tungstenite = "0.24"
ureq = { version = "2", default-features = false, features = ["json", "tls"] }
