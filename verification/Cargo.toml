[package]
name = "quickstart_lib"
version = "0.1.0"
edition = "2021"
publish = false

[dependencies]
chrono = "0.4"
clap = { version = "4", features = ["derive"] }
clap_complete = "4"
console = "*"
crossterm = "*"
handlebars = "*"
indicatif = "*"
inquire = "*"
libc = "0.2"
pathdiff = "0.2"
ratatui = "*"
serde = { version = "1", features = ["derive"] }
thiserror = "*"
which = "*"
