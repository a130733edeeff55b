[package]
name = "dddw"
version = "0.1.0"
edition = "2021"
publish = false

[dependencies]
clap = { version = "*", features = ["derive"] }
comfy-table = "*"
env_logger = "*"
indicatif = "*"
log = "*"
winapi = { version = "0.3", features = ["fileapi", "handleapi", "ioapiset", "winioctl", "winnt", "minwindef", "processthreadsapi", "securitybaseapi", "impl-default"] }
windows-drives = "*"
