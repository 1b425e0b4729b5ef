[package]
name = "rustcertation"
version = "0.1.0"
edition = "2021"
publish = false

[dependencies]
ringbuffer = "=0.11.1"
iced = { version = "0.6", features = ["canvas", "tokio"] }
iced_native = "0.7"
iced_graphics = "0.5"
palette = "=0.6.1"
spectrum-analyzer = "=1.9.0"
structopt = "=0.3.26"
