[package]
name = "pkgstrap"
version = "0.1.0"
edition = "2021"
publish = false

[dependencies]
git2 = { version = "=0.21.0", default-features = false }
url = "=2.5.8"
symlink = "=0.1.0"
remove_dir_all = "=1.0.0"
dirs = "=7.0.0"
serde = { version = "=1.0.229", features = ["derive"] }
anyhow = "=1.0.104"
structopt = "=0.3.26"
ron-reboot = "=0.1.0-preview9"

[dev-dependencies]
fs_extra = "*"
