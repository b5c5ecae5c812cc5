[package]
name = "risc_v_simulator"
version = "0.1.0"
edition = "2021"
publish = false

[dependencies]
ringbuffer = "=0.16.0"
rand = "=0.10.3"
