[package]
name = "voxel_gi"
version = "0.1.0"
edition = "2021"
publish = false

[dependencies]
bevy = { version = "=0.6.1", default-features = false, features = ["render"] }
bevy_core_pipeline = "=0.6.0"
bevy_pbr = "=0.6.1"
crevice = "=0.20.1"
# Not called from any code here. bevy's derive crates use items of syn that
# are behind syn's "full" feature without asking for it; this crate asks.
ndk-macro = "=0.3.0"
