[package]
name = "motion_alert"
version = "0.1.0"
edition = "2021"
publish = false

[dependencies]
serde = "1"
serde_json = "1"
cron = "*"
chrono = "*"
anyhow = "1"
log = "0.4"
macaddr = "*"
embedded-svc = "*"
esp-idf-svc = "*"
esp-idf-hal = "*"
esp-idf-sys = "*"
