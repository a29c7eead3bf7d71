[package]
name = "openclips"
version = "0.1.0"
edition = "2021"
publish = false

[dependencies]
ashpd = { version = "=0.13.13", default-features = false, features = ["async-io", "screencast"] }
async-io = "2"
chrono = "0.4"
discord-rich-presence = "=1.1.0"
futures-lite = "2"
global-hotkey = "=0.9.0"
libc = "0.2"
mimalloc = "0.1"
rfd = { version = "=0.17.2", default-features = false, features = ["xdg-portal"] }
serde = { version = "1", features = ["derive"] }
serde_json = "=1.0.154"
sha2 = "=0.10.9"
toml = "0.9"
tracing = "0.1"
trash = "=5.2.9"
ureq = "3"
x11rb = { version = "=0.13.2", features = ["randr"] }
