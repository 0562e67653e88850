[package]
name = "avdecoder"
version = "0.1.0"
edition = "2021"
publish = false

[dependencies]
av-codec = "=0.1.0"
av-data = "=0.1.0"
num-rational = "=0.2.4"
glib = "=0.6.1"
gobject-subclass = "=0.2.1"
gst-plugin = "=0.3.2"
gstreamer = "=0.12.2"
gstreamer-audio = "0.12"
gstreamer-base = "=0.12.2"
