[package]
name = "mover_controller"
version = "0.1.0"
edition = "2021"
publish = false

[dependencies]
rp2040-hal = { version = "=0.12.0", features = ["rt", "critical-section-impl"] }
rp2040-boot2 = "=0.3.0"
embedded-hal = "=1.0.0"
critical-section = "=1.2.0"
cortex-m-rt = "=0.7.7"
usb-device = "=0.3.2"
usbd-serial = "=0.2.2"
ryu = "=1.0.23"
panic-halt = "=1.0.0"
