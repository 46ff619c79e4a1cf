[package]
name = "witui"
version = "0.1.0"
edition = "2021"
publish = false

[dependencies]
crossterm = "0.22"
justify = "*"
log = "0.4"
pretty_env_logger = "0.4"
textwrap = "0.16"
