[package]
name = "honkai_dumper"
version = "0.1.0"
edition = "2021"

[dependencies]
ctor = "0.2"
serde_json = { version = "1", features = ["preserve_order"] }
thiserror = "1"
winapi = { version = "0.3", features = ["consoleapi", "libloaderapi", "minwindef", "processthreadsapi", "psapi"] }
