[package]
name = "luastrap"
version = "0.1.0"
edition = "2021"
publish = false

[dependencies]
ctrlc = "*"
fern = { version = "*", features = ["colored"] }
git2 = { version = "*", default-features = false }
hlua = "*"
indicatif = "*"
is_executable = "*"
log = "*"
run_script = "*"
serde = { version = "*", features = ["derive"] }
toml = "*"
