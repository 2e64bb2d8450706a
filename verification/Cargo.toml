[package]
name = "wintun_session"
version = "0.1.0"
edition = "2021"
publish = false

[dependencies]
log = "0.4"
once_cell = "1"
widestring = "1"
winapi = { version = "0.3", features = ["errhandlingapi", "synchapi", "winbase", "winerror", "winnt"] }
