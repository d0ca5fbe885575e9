[package]
name = "handlebars_misc_helpers"
version = "0.1.0"
edition = "2021"
publish = false

[dependencies]
handlebars = "=6.4.4"
thiserror = "=2.0.21"
serde_json = "=1.0.151"
serde_yaml = "=0.9.34"
toml = "=1.1.7"
cruet = "=0.13.3"
