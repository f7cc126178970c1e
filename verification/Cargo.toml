[package]
name = "nocat"
version = "0.1.0"
edition = "2021"
publish = false

[dependencies]
assign-resources = "=0.5.0"
defmt = "=1.2.0"
defmt-rtt = "=1.3.1"
embassy-embedded-hal = "=0.6.0"
embassy-executor = { version = "=0.10.0", features = ["platform-std", "executor-thread"] }
embassy-futures = "=0.1.2"
embassy-rp = { version = "=0.10.0", features = ["rp2040", "time-driver", "critical-section-impl", "unstable-pac"] }
embassy-sync = "=0.8.0"
embassy-time = "=0.5.1"
embassy-usb = "=0.6.0"
embassy-usb-logger = "=0.6.0"
log = "=0.4.35"
panic-probe = "=1.0.0"
rfm69-async = { version = "=0.1.0", features = ["embassy", "log"] }
smart-leds = "=0.4.0"
static_cell = "=2.1.1"
usbd-hid = "=0.10.2"
