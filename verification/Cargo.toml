[package]
name = "frontend"
version = "0.1.0"
edition = "2021"
publish = false

[dependencies]
clap = "=2.34.0"
env_logger = "=0.9.3"
libc = "=0.2.191"
llvm-sys = { version = "140", features = ["prefer-dynamic"] }
log = "=0.4.34"
owo-colors = "=3.5.0"
