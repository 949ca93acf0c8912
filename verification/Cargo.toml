[package]
name = "ortelius"
version = "0.1.0"
edition = "2021"
publish = false

[dependencies]
bytemuck = "=1.25.2"
pollster = "=0.4.0"
vello = "0.6"
winit = "=0.30.13"
