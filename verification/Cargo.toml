[package]
name = "torn"
version = "0.1.0"
edition = "2021"
publish = false

[dependencies]
pluggable_interrupt_os = "=0.5.3"
pc-keyboard = "=0.8.0"
