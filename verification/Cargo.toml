[package]
name = "emplace"
version = "0.1.0"
edition = "2021"
publish = false

[dependencies]
colored = "*"
anyhow = "*"
clap = { version = "*", features = ["derive", "env", "cargo"] }
clap_complete = "*"
console = "*"
dialoguer = "*"
dirs = "*"
log = "*"
ron = "*"
run_script = "*"
serde = { version = "*", features = ["derive"] }
simplelog = "*"
toml = "*"
camino = "*"
bugreport = "*"
