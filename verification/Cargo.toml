[package]
name = "arm_fvp_base_pac"
version = "0.1.0"
edition = "2021"
publish = false

[dependencies]
arm-gic = "*"
arm-pl011-uart = "*"
arm-sp805 = "*"
safe-mmio = "*"
bitflags = "2"
spin = "*"
zerocopy = { version = "0.8", features = ["derive"] }
