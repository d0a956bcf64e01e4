[package]
name = "sysmon"
version = "0.1.0"
edition = "2021"
publish = false

[dependencies]
sysinfo = "0.33"
sys-info = "0.9"
systemstat = "0.2"
gfx-hal = "0.9"
gfx-backend-vulkan = "0.9"
