[package]
name = "dcal"
version = "0.1.0"
edition = "2021"
publish = false

[dependencies]
rubato = "0.12"
symphonia = "0.5"
dasp = "0.11"
