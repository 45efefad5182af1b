[package]
name = "kernel"
version = "0.1.0"
edition = "2021"
publish = false

[dependencies]
x86_64 = { version = "0.15", default-features = false, features = ["instructions"] }
tinyvec = "1"
fixed = "1"
dlmalloc = "0.2"
spin = "0.9"
log = "0.4"
bootloader_api = "0.11"
acpi = "5"
bitfield = "*"
lazy_static = { version = "1", features = ["spin_no_std"] }
raw-cpuid = "*"
pic8259 = "*"
uart_16550 = "*"
