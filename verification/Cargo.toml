[package]
name = "spritecollab"
version = "0.1.0"
edition = "2021"
publish = false

[dependencies]
ellipse = "*"
git2 = "*"
fred = "*"
tokio = { version = "*", features = ["fs"] }
serde = "*"
serde_json = "*"
log = "*"
