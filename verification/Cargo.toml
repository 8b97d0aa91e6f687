[package]
name = "gantt_diagram"
version = "0.1.0"
edition = "2021"
publish = false

[dependencies]
postgres = "*"
fallible-iterator = "*"
iron = "*"
mount = "*"
staticfile = "*"
structopt = "*"
serde = "*"
serde_derive = "*"
serde_json = "*"
log = "*"
env_logger = "*"
