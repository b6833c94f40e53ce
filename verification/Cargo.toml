[package]
name = "zenohc"
version = "0.1.0"
edition = "2021"
publish = false

[dependencies]
zenoh = { version = "=0.11.0", default-features = false, features = ["transport_tcp"] }
zenoh-protocol-core = "=0.7.0-rc"
zenoh-result = "=0.11.0"
log = "0.4"
env_logger = "0.10"
libc = "0.2"
