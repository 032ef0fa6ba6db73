[package]
name = "wasi_devices"
version = "0.1.0"
edition = "2021"
publish = false

[dependencies]
embedded-can = "=0.4.1"
embedded-hal = "=1.0.0"
nb = "=1.1.0"
socketcan = "=3.6.2"
sysfs-pwm = "=0.1.0"
gpiocdev-embedded-hal = "=0.1.3"
serde = { version = "=1.0.229", features = ["derive"] }
anyhow = "=1.0.104"
clap = { version = "=4.6.7", features = ["derive"] }
wasmtime = "=46.0.3"
wasmtime-wasi = "=46.0.3"
