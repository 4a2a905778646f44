[package]
name = "pcodec_miniblock"
version = "0.1.0"
edition = "2021"
publish = false

[dependencies]
bytemuck = { version = "=1.25.2", features = ["extern_crate_alloc"] }
pco = "=1.0.4"

[dev-dependencies]
arrow-array = "=56.2.1"
