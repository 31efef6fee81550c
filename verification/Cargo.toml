[package]
name = "gitexplore"
version = "0.1.0"
edition = "2021"
publish = false

[dependencies]
ctrlc = "3"
exitcode = "1"
serde = { version = "1", features = ["derive"] }
serde_json = "1"
structopt = "0.3"
