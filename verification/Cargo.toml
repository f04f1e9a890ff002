[package]
name = "anon_csv"
version = "0.1.0"
edition = "2021"
publish = false

[dependencies]
csv = "1"
fake = "1"
failure = "0.1"
failure-tools = "*"
structopt = "0.2"
