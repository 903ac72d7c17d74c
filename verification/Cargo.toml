[package]
name = "space_debris"
version = "0.1.0"
edition = "2021"
publish = false

[dependencies]
heapless = "0.8"
oorandom = "11"
crossbeam = "0.8"
pc-keyboard = "*"
pluggable_interrupt_os = "*"
