[package]
name = "ivyterm"
version = "0.1.0"
edition = "2021"
publish = false

[dependencies]
async-channel = "=2.5.0"
dirs = "=7.0.0"
enumflags2 = "=0.7.12"
log = "=0.4.35"
mio = { version = "=1.2.4", features = ["os-poll", "net"] }
ssh2 = "=0.9.6"
ssh2-config = "=0.2.3"
vmap = "=0.6.3"
