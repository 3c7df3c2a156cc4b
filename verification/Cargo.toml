[package]
name = "prestige"
version = "0.1.0"
edition = "2021"
publish = false

[dependencies]
bit_field = "=0.10.3"
crossbeam = "=0.8.5"
lazy_static = { version = "=1.5.1", features = ["spin_no_std"] }
limine = "0.5"
linked_list_allocator = "=0.10.6"
pc-keyboard = "=0.6.1"
pic8259 = "=0.10.4"
spin = "=0.9.9"
uart_16550 = "=0.2.19"
volatile = "=0.2.7"
vte = "=0.13.1"
x86_64 = { version = "=0.14.13", default-features = false, features = ["instructions"] }
