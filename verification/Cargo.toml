[package]
name = "gstplayer"
version = "0.1.0"
edition = "2021"
publish = false

[dependencies]
gstreamer = "*"
gtk4 = "*"
gst-plugin-gtk4 = "*"
