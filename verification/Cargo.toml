[package]
name = "module_render"
version = "0.1.0"
edition = "2021"
publish = false

[dependencies]
string_wizard = "=1.2.15"
rustc-hash = "=2.1.3"
oxc = "=0.141.0"
