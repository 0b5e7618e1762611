[package]
name = "workspaces"
version = "0.1.0"
edition = "2021"
publish = false

[dependencies]
colored = "*"
cursive = "*"
dirs = "*"
exitfailure = "*"
rusqlite = { version = "*", features = ["bundled"] }
structopt = "*"
