[package]
name = "dlt_user"
version = "0.1.0"
edition = "2021"
publish = false

[dependencies]
async-std = "=1.13.2"
dlt-core = "=0.14.5"
ini = "=1.3.0"
libc = "=0.2.191"
ringbuf = "=0.5.3"
thiserror = "=1.0.69"
