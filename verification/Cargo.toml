[package]
name = "candle-wgpu"
version = "0.1.0"
edition = "2021"
publish = false

[dependencies]
bytemuck = "1"
flume = "0.11"
smol = "2"
thiserror = "1"
wgpu = "0.19"
