[package]
name = "dot"
version = "0.1.0"
edition = "2021"
publish = false

[dependencies]
flate2 = "1"
tar = "0.4"
zip = { version = "*", default-features = false, features = ["deflate"] }
url = "2"
toml = "*"
convert_case = "*"
clap = { version = "4", features = ["derive"] }
clap-verbosity-flag = "*"
env_logger = "*"
log = "*"
indicatif = "*"
reqwest = { version = "*", default-features = false, features = ["blocking"] }
git2 = { version = "*", default-features = false }
homedir = "*"
rand = "*"
tempfile = "*"
