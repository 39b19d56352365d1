[package]
name = "ec-slimloader"
version = "0.1.0"
edition = "2021"
publish = false

[dependencies]
crc = "3"
cortex-m = "0.7"
embedded-storage-async = "0.4"
mimxrt685s-pac = "*"
