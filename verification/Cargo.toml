[package]
name = "test_steps"
version = "0.1.0"
edition = "2021"
publish = false

[dependencies]
rea-rs = "=0.1.40"
rea-rs-low = "=0.1.40"
log = "=0.4.35"
c_str_macro = "=1.0.3"
