[package]
name = "platform2"
version = "0.1.0"
edition = "2021"
publish = false

[dependencies]
dbus = "0.6"
getopts = "0.2"
libc = "0.2"
log = "0.4"
protobuf = "2"
