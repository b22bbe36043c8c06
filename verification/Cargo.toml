[package]
name = "tinylang"
version = "0.1.0"
edition = "2021"
publish = false

[dependencies]
melior = "=0.28.2"
mlir-sys = "=230.0.2"
llvm-sys = { version = "=140.1.3", features = ["force-dynamic"] }
clap = { version = "=4.6.7", features = ["derive"] }
