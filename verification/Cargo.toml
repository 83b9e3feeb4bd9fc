[package]
name = "nand2tetris"
version = "0.1.0"
edition = "2021"
publish = false

[dependencies]
inflections = "1"
tokio = { version = "1", features = ["fs", "io-util", "rt-multi-thread", "macros"] }
