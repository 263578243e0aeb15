[package]
name = "bcd_dump"
version = "0.1.0"
edition = "2021"
publish = false

[dependencies]
uuid = "1"
nt-hive = "0.2"
