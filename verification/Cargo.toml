[package]
name = "gfx_device_gl"
version = "0.1.0"
edition = "2021"
publish = false

[dependencies]
draw_state = "=0.1.2"
gfx = "=0.7.2"
gfx_gl = "=0.6.1"
libc = "=0.2.191"
log = "=0.3.9"
