[package]
name = "lexer"
version = "1.0.0"
edition = "2021"
publish = false

[dependencies]
annotate-snippets = "0.10"
chrono = "0.4"
clap = { version = "4", features = ["derive"] }
clap-verbosity-flag = "2"
env_logger = "0.10"
log = "0.4"
pest = "2"
regex = "1"
sysinfo = "0.30"
thiserror = "1"
