[package]
name = "vhost_device_backends"
version = "0.1.0"
edition = "2021"
publish = false

[dependencies]
pipewire = "0.8"
libspa-sys = "0.8"
log = "0.4"
virtio-queue = "0.11"
vm-memory = "0.14"
clap = { version = "4", features = ["derive"] }
