[package]
name = "truce_egui"
version = "0.1.0"
edition = "2021"
publish = false

[dependencies]
egui = "=0.34.3"
log = "=0.4.35"
webbrowser = "=1.2.6"
raw-window-handle = "=0.5.2"
objc = "=0.2.7"
objc2 = "=0.6.5"
objc2-foundation = "=0.3.2"
