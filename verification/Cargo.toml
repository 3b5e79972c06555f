[package]
name = "ddc_ci_daemons"
version = "0.1.0"
edition = "2021"
publish = false

[dependencies]
base64 = "0.22"
crossbeam-channel = "0.5"
env_logger = "0.11"
log = "0.4"
varlink = "11"
zbus = "5"
