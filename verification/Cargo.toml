[package]
name = "motor_control"
version = "0.1.0"
edition = "2021"
publish = false

[dependencies]
pathfinding = "*"
i2c-linux = "*"
serde = { version = "*", features = ["derive"] }
