[package]
name = "rtforth"
version = "0.1.0"
edition = "2021"
publish = false

[dependencies]
page_size = "=0.6.0"
crossterm = "=0.29.0"
getopts = "=0.2.24"
rustyline = "=19.0.0"
time = "0.1"
