[package]
name = "contract_compare"
version = "0.1.0"
edition = "2021"
publish = false

[dependencies]
alloy-primitives = "=1.7.3"
alloy-provider = { version = "=1.8.3", default-features = false, features = ["reqwest"] }
async-trait = "=0.1.92"
clap = { version = "=4.6.7", default-features = false, features = ["std", "derive", "help", "usage", "error-context"] }
hex = "=0.4.3"
reqwest = { version = "=0.13.5", default-features = false }
serde_json = "=1.0.154"
sha2 = "=0.10.9"
tokio = { version = "=1.54.1", features = ["macros", "rt-multi-thread"] }
