[package]
name = "rawgadget_usbd"
version = "0.1.0"
edition = "2021"
publish = false

[dependencies]
nix = { version = "*", features = ["ioctl"] }
usb-device = "*"
libusb-sys = "*"
