[package]
name = "abi_shim"
version = "0.1.0"
edition = "2021"

[dependencies]
axerrno = "0.2.2"
axio = "0.2.1"
axfs = "=0.3.0-preview.3"
axfs-ng-vfs = "0.8.1"
axtask = "=0.3.0-preview.3"
linux-raw-sys = "0.12.1"
