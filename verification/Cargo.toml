[package]
name = "libsql_nvim"
version = "0.1.0"
edition = "2021"
publish = false

[dependencies]
mlua = { version = "0.9", features = ["lua51", "vendored", "unstable", "serialize"] }
nvim-oxi = { version = "0.4", features = ["neovim-0-9", "libuv"] }
tokio = { version = "1", features = ["rt-multi-thread", "sync"] }
libsql = "*"
serde = { version = "1", features = ["derive"] }
