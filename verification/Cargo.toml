[package]
name = "link_manager"
version = "0.1.0"
edition = "2021"
publish = false

[dependencies]
anyhow = "*"
directories = "*"
fs_extra = "*"
serde = { version = "*", features = ["derive"] }
serde_json = "*"
symlink = "*"
