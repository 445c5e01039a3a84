[package]
name = "region_to_share"
version = "0.1.0"
edition = "2021"
publish = false

[dependencies]
drm-fourcc = "2"
thiserror = "1"
serde = { version = "1", features = ["derive"] }
serde_json = "1"
x11rb = { version = "0.13", features = ["shm", "xfixes"] }
libc = "0.2"
tokio = { version = "1", features = ["rt-multi-thread", "sync", "time"] }
crossbeam-channel = "0.5"
log = "0.4"
env_logger = { version = "0.11", default-features = false }
clap = { version = "4", default-features = false, features = ["std", "derive", "help", "usage"] }
dirs = "5"
async-trait = "0.1"
ashpd = { version = "0.9", default-features = false, features = ["tokio"] }
khronos-egl = { version = "6", features = ["dynamic"] }
gl = "0.14"
rayon = "1"
sys-locale = "0.3"
rust-i18n = "3"
