[package]
name = "rustboyadvance_core"
version = "0.1.0"
edition = "2021"
publish = false

[dependencies]
bit = "0.1"
byteorder = "1"
ringbuf = "0.2"
clap = "2"
zip = { version = "0.5", default-features = false, features = ["deflate"] }
sdl2 = "0.34"
ansi_term = "0.12"
colored = "1"
hexdump = "0.1"
spin_sleep = "1"
bytesize = "1"
