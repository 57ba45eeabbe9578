[package]
name = "nvme_queue_pair"
version = "0.1.0"
edition = "2021"
publish = false

[dependencies]
slab = "*"
