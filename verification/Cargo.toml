[package]
name = "keasyditor-core"
version = "0.1.0"
edition = "2021"
publish = false

[dependencies]
quick-xml = "*"
sha1 = "*"
regex = "*"
serde_json = "*"
dirs = "*"
