[package]
name = "sgx_panic_unwind"
version = "0.1.0"
edition = "2021"
publish = false

[dependencies]
sgx_libc = "*"
sgx_unwind = "*"
sgx_types = "*"
sgx_tstd = "*"
