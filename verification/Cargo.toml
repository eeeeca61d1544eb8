[package]
name = "os_balloon"
version = "0.1.0"
edition = "2021"
publish = false

[dependencies]
anyhow = "*"
chrono = "*"
colored = "*"
libc = "*"
log = "*"
once_cell = "*"
serde = { version = "*", features = ["derive"] }
sysfs_gpio = "*"
tokio-serial = { version = "*", default-features = false }
toml = "*"
