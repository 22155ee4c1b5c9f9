[package]
name = "pproxy"
version = "0.1.0"
edition = "2021"
publish = false

[dependencies]
async-trait = "=0.1.92"
clap = { version = "=4.6.7", features = ["derive"] }
env_logger = "=0.10.2"
http = "=1.5.0"
log = "=0.4.34"
openssl = "=0.10.81"
pingora = "=0.3.0"
pingora-core = "=0.3.0"
pingora-error = "=0.3.0"
pingora-http = "=0.3.0"
pingora-proxy = "=0.3.0"
