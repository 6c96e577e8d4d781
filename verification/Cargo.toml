[package]
name = "r3gl"
version = "0.1.0"
edition = "2021"
publish = false

[dependencies]
intbits = "0.2"
instant = "0.1"
log = "0.4"
color-eyre = "0.6"
fragile = "2"
samplerate = "0.2"
symphonia = { version = "0.5", features = ["mp3"] }
cpal = "0.13"
