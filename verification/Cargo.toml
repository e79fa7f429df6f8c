[package]
name = "ultrasonic"
version = "0.1.0"
edition = "2021"
publish = false

[dependencies]
aluvm = "0.12.0"
amplify = { version = "4.9.0", features = ["derive"] }
commit_verify = "0.12.0"
strict_encoding = { version = "2.9.1", features = ["derive"] }
zk-aluvm = "0.12.0"
