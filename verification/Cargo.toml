[package]
name = "printroute"
version = "0.1.0"
edition = "2021"
publish = false

[dependencies]
regex = "*"
winapi = { version = "*", features = ["winspool", "errhandlingapi", "winbase", "winnt", "minwindef", "ntdef"] }
