[package]
name = "devtools"
version = "0.1.0"
edition = "2021"
publish = false

[dependencies]
base64 = "0.22"
clap = { version = "4", features = ["derive"] }
console = "*"
htmlescape = "*"
serde_json = "1"
serde_yaml_ng = "*"
toml = "*"
url = "2"
urlencoding = "2"
