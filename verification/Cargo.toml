[package]
name = "msr_driver"
version = "0.1.0"
edition = "2021"
publish = false

[dependencies]
widestring = "1"
winapi = { version = "0.3", features = ["ntdef", "ntstatus"] }
