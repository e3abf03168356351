[package]
name = "d_sh"
version = "0.1.0"
edition = "2021"
publish = false

[dependencies]
dirs = "*"
glob = "*"
handlebars = "*"
rand = "*"
serde_json = "*"
serde_yaml = "*"
users = "*"
