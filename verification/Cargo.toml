[package]
name = "rumble"
version = "0.1.0"
edition = "2021"
publish = false

[dependencies]
anyhow = "1"
bytemuck = "1"
itertools = "0.10"
nanoid = "0.4"
once_cell = "1"
rand = "0.8"
smallvec = "1"
thiserror = "1"
wgpu = "0.16"
