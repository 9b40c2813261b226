[package]
name = "grabcore"
version = "0.1.0"
edition = "2021"
publish = false

[dependencies]
epoll = "*"
evdev-rs = "*"
inotify = "*"
