[package]
name = "filter_engine"
version = "0.1.0"
edition = "2021"
publish = false

[dependencies]
adblock = { version = "=0.11.1", default-features = false, features = ["embedded-domain-resolver", "full-regex-handling"] }
# Not used by name. adblock depends on rmp-serde 0.15.5, which calls free
# functions of rmp's decoder that rmp 0.8.15 no longer has; without this pin
# the later rmp is picked and adblock does not build.
rmp = "=0.8.11"
serde_json = "=1.0.154"
ureq = "=2.12.1"
