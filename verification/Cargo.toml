[package]
name = "statedir"
version = "0.1.0"
edition = "2021"
publish = false

[dependencies]
fs-mistrust = "=0.16.0"
fslock-guard = "=0.9.0"
remove_dir_all = "*"
serde = { version = "=1.0.229", features = ["derive"] }
serde_json = "=1.0.151"

[dev-dependencies]
tempfile = "=3.27.0"
