[package]
name = "mtrap"
version = "0.1.0"
edition = "2021"
publish = false

[dependencies]
device_tree = "=1.1.0"
riscv = "=0.7.0"
rustsbi = "=0.4.1"
embedded-hal = "=0.2.7"
nb = "=0.1.3"
spin = "=0.12.3"
lazy_static = "=1.5.1"
linked_list_allocator = "=0.10.6"
