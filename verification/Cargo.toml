[package]
name = "ipc_pipe"
version = "0.1.0"
edition = "2021"
publish = false

[dependencies]
bincode = "=1.3.3"
libc = "=0.2.191"
winapi = { version = "=0.3.9", features = ["errhandlingapi", "fileapi", "handleapi", "minwindef", "namedpipeapi", "processthreadsapi", "winnt"] }

[dev-dependencies]
rustix = { version = "=1.1.5", features = ["event", "net", "pipe", "time"] }
serde = "=1.0.229"
