[package]
name = "gpui-updater"
version = "0.1.0"
edition = "2021"
publish = false

[dependencies]
semver = "1"
serde = "1"
ureq = { version = "3", features = ["json"] }
sha2 = "0.10"
minisign-verify = "0.2"

[dev-dependencies]
tempfile = "3"
