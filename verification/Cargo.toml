[package]
name = "bls"
version = "0.1.0"
edition = "2021"
publish = false

[dependencies]
paired = "=0.22.0"
fff = "=0.3.1"
groupy = "=0.4.1"
sha3 = "=0.9.1"
rand_core = "=0.5.1"
rand_xorshift = "=0.2.0"
