[package]
name = "branch_cli"
version = "0.1.0"
edition = "2021"
publish = false

[dependencies]
dialoguer = "*"
structopt = "0.3"
