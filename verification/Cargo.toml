[package]
name = "watchers"
version = "0.1.0"
edition = "2021"
publish = false

[dependencies]
anyhow = "=1.0.104"
clap = { version = "=4.6.7", features = ["derive"] }
directories = "=6.0.0"
env_logger = "=0.11.11"
git2 = { version = "=0.21.0", features = ["ssh", "https"] }
inquire = "=0.9.4"
log = "=0.4.34"
notify = "=8.2.0"
serde = { version = "=1.0.229", features = ["derive"] }
serde_yaml = "=0.9.34"
shellexpand = "=3.1.2"
tokio = { version = "=1.54.1", features = ["macros", "rt-multi-thread"] }
zbus = "=6.1.0"
zbus_systemd = { version = "=0.26201.0", features = ["systemd1"] }
