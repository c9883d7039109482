[package]
name = "what_bump"
version = "0.1.0"
edition = "2021"
publish = false

[dependencies]
git2 = { version = "=0.21.0", default-features = false }
tera = { version = "=2.4.0", features = ["preserve_order"] }
chrono = "=0.4.45"
semver = "=1.0.28"
structopt = "=0.3.26"
stderrlog = "=0.6.0"
log = "=0.4.34"
simple-error = "=0.3.3"
