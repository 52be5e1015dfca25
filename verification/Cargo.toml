[package]
name = "stable_fun"
version = "0.1.0"
edition = "2021"
publish = false

[dependencies]
anchor-lang = { version = "=0.31.2", features = ["init-if-needed"] }
anchor-spl = { version = "=0.31.2", features = ["metadata"] }
switchboard-on-demand = "=0.13.0"

[dev-dependencies]
bytemuck = "=1.25.2"
