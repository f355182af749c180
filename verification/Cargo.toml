[package]
name = "constella"
version = "0.1.0"
edition = "2021"
publish = false

[dependencies]
bytemuck = { version = "1", features = ["extern_crate_alloc"] }
serde = "1"
serde_json = "1"
bincode = "1"
structsy = "*"
twilight-model = "0.6"
lmdb-sys = "0.8"
libc = "0.2"
once_cell = "1"
page_size = "0.4"
synchronoise = "1"
byteorder = "1"
