[package]
name = "kernel"
version = "0.1.0"
edition = "2021"
publish = false

[dependencies]
bitflags = "2"
lazy_static = "1"
linked_list_allocator = "0.10"
multiboot = "0.8"
spin = "0.9"
uart_16550 = "0.3"
