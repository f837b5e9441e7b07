[package]
name = "quantgrad"
version = "0.1.0"
edition = "2021"
publish = false

[dependencies]
statrs = "*"
time = "*"
nalgebra = "*"
num-complex = "*"
rand = "*"
rand_distr = "*"
rustc_apfloat = "*"
astro-float = "*"
