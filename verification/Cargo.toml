[package]
name = "hermit_kernel"
version = "0.1.0"
edition = "2021"
publish = false

[dependencies]
ahash = "=0.8.12"
embedded-io = "=0.7.1"
hashbrown = "=0.17.1"
heapless = "=0.8.0"
hermit-macro = "=0.1.0"
hermit-sync = "=0.2.0"
memory_addresses = "=0.4.0"
pci_types = "=0.10.1"
uart_16550 = "=0.4.0"
