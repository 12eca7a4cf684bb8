[package]
name = "wspr_beacon"
version = "0.1.0"
edition = "2021"
publish = false

[dependencies]
heapless = "=0.8.0"
nmea0183 = "=0.6.0"
embedded-hal = "=1.0.0"
