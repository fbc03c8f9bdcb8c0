[package]
name = "dbv"
version = "0.1.0"
edition = "2021"
publish = false

[dependencies]
anyhow = "1"
chrono = { version = "0.4", default-features = false, features = ["clock"] }
csv = "1"
ecolor = "0.27"
egui = "0.27"
egui_extras = "0.27"
egui_plot = "0.27"
env_logger = { version = "0.11", default-features = false }
log = "0.4"
matio-rs = "*"
opener = { version = "*", features = ["reveal"] }
poll-promise = { version = "0.3", features = ["tokio"] }
regex = "1"
rfd = { version = "0.14", default-features = false, features = ["xdg-portal", "tokio"] }
same-file = "1"
serde = { version = "1", features = ["derive"] }
serde_repr = "0.1"
tokio = { version = "1", features = ["rt", "time"] }
web-time = "1"
