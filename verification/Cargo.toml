[package]
name = "dds_to_xt1"
version = "0.1.0"
edition = "2021"
publish = false

[dependencies]
tegra_swizzle = "*"
ddsfile = "*"
num-traits = "*"
