[package]
name = "pstitle"
version = "0.1.0"
edition = "2021"
publish = false

[dependencies]
async-ctrlc = "=1.2.0"
crossterm = "=0.25.0"
futures = "=0.3.34"
indicatif = "0.17"
once_cell = "=1.21.4"
structopt = "=0.3.26"
tokio = { version = "=1.53.2", features = ["macros", "rt-multi-thread", "sync", "time"] }
