[package]
name = "project_init"
version = "0.1.0"
edition = "2021"
publish = false

[dependencies]
anyhow = "=1.0.104"
fs-err = "=2.11.0"
indoc = "=2.0.8"
owo-colors = "=4.4.0"
pep508_rs = "=0.9.2"
uv-fs = "=0.0.1"
uv-warnings = "=0.0.1"
