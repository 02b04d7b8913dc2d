[package]
name = "simulation_engine"
version = "0.1.0"
edition = "2021"
publish = false

[dependencies]
rand = "0.8"
sdl2 = "0.35"
winapi = { version = "0.3", features = ["basetsd", "libloaderapi", "memoryapi", "minwindef", "windef", "windowsx", "wingdi", "winnt", "winuser"] }
