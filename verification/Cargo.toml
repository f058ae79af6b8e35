[package]
name = "wordclock"
version = "0.1.0"
edition = "2021"
publish = false

[dependencies]
dcf77 = "*"
ds1307 = "*"
embedded-hal = "*"
