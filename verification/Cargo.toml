[package]
name = "rom_organizer"
version = "0.1.0"
edition = "2021"
publish = false

[dependencies]
sha1_smol = { version = "=1.0.1", features = ["std"] }
clap = { version = "=4.6.7", features = ["derive"] }
log = "=0.4.34"
log4rs = "=1.4.0"
