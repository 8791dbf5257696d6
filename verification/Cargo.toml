[package]
name = "busycrab"
version = "0.1.0"
edition = "2021"
publish = false

[dependencies]
rand = "=0.9.5"
chrono = "=0.4.45"
term_size = "=0.3.2"
clap = { version = "=4.6.7", features = ["derive"] }
ctrlc = "=3.5.2"
enigo = "=0.1.3"
winapi = { version = "=0.3.9", features = ["winbase", "winnt"] }
core-foundation = "=0.9.4"
core-foundation-sys = "=0.8.7"
