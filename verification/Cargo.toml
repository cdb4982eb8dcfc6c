[package]
name = "inspector"
version = "0.1.0"
edition = "2021"
publish = false

[dependencies]
chrono = "*"
clap = { version = "*", features = ["derive"] }
crash-context = "*"
dtrace = "*"
libc = "*"
mach2 = "*"
minidump-writer = "*"
serde = { version = "*", features = ["derive"] }
windows = { version = "*", features = ["Win32_Foundation", "Win32_Security", "Win32_System_Diagnostics_Debug", "Win32_System_Kernel", "Win32_System_Memory", "Win32_System_Threading"] }
