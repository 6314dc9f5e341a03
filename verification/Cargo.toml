[package]
name = "plugin_manager"
version = "0.1.0"
edition = "2021"
publish = false

[dependencies]
serde_json = "1"
toml = "0.8"
dirs = "5"
