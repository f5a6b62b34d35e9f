[package]
name = "openvpn3-gui-rs"
version = "0.1.0"
edition = "2021"
publish = false

[dependencies]
anyhow = "1"
chrono = "0.4"
futures = "0.3"
gio = "0.20"
glib = "0.20"
gtk4 = "0.9"
ksni = { version = "0.3", features = ["blocking"] }
libadwaita = "0.7"
oo7 = "0.4"
sha2 = "0.10"
tokio = { version = "1", features = ["sync", "rt"] }
tracing = "0.1"
zbus = "5"
