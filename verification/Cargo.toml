[package]
name = "impact_rs"
version = "0.1.0"
edition = "2021"
publish = false

[dependencies]
fixed32 = "=0.0.18"
fixed32-math = "=0.0.19"
