[package]
name = "fringe"
version = "0.1.0"
edition = "2021"
publish = false

[dependencies]
void = "1"
log = "0.4"
