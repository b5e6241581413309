[package]
name = "decal"
version = "0.1.0"
edition = "2021"
publish = false

[dependencies]
cpal = "=0.15.3"
dasp = "=0.11.0"
rb = "=0.4.1"
rubato = "=0.15.0"
symphonia = "0.6"
thiserror = "=1.0.69"
tracing = "=0.1.44"
