[package]
name = "dunst-in-gtk"
version = "0.1.0"
edition = "2021"
publish = false

[dependencies]
async-channel = "2"
env_logger = "*"
glib = "*"
gtk4 = "*"
log = "*"
signal-hook = "0.3"
xcb = "1"
zbus = "5"
