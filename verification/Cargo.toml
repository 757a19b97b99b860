[package]
name = "rs_dotnet"
version = "0.1.0"
edition = "2021"
publish = false

[dependencies]
libc = "0.2"
libloading = "0.8"
lazy_static = "1"
notify = "5"
notify-debouncer-mini = "0.2"
