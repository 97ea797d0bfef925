[package]
name = "serial_loader"
version = "0.1.0"
edition = "2021"
publish = false

[dependencies]
clap = "=2.34.0"
color-backtrace = "=0.5.1"
ctrlc = "=3.5.2"
indicatif = "=0.17.11"
serialport = { version = "=4.10.1", default-features = false }
termion = "=1.5.6"
