[package]
name = "opennow-streamer"
version = "0.1.0"
edition = "2021"
publish = false

[dependencies]
anyhow = "=1.0.104"
evdev = "=0.12.2"
gstreamer = "=0.23.7"
gstreamer-app = "=0.23.5"
gstreamer-video = "=0.23.6"
libc = "=0.2.191"
libloading = "=0.8.9"
log = "=0.4.34"
parking_lot = "=0.12.5"
pollster = "=0.4.0"
tokio = { version = "=1.54.1", default-features = false, features = ["sync"] }
wgpu = "=28.0.0"
windows = { version = "=0.58.0", features = ["Win32_Foundation", "Win32_Graphics_Direct3D", "Win32_Graphics_Direct3D11", "Win32_Graphics_Dxgi_Common"] }
x11 = { version = "=2.21.0", features = ["xlib", "xinput"] }
