[package]
name = "lcd_rpc"
version = "0.1.0"
edition = "2021"
publish = false

[dependencies]
validator = "=0.8.0"
serde = { version = "=1.0.229", features = ["derive"] }
jsonrpc-http-server = "=14.2.0"
hd44780-driver = "=0.4.0"
linux-embedded-hal = "=0.3.2"
