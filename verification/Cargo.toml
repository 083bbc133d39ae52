[package]
name = "gnosispay"
version = "0.1.0"
edition = "2021"
publish = false

[dependencies]
alloy = { version = "1", default-features = false, features = ["rpc-types", "sol-types"] }
chrono = { version = "0.4", default-features = false, features = ["std", "clock"] }
clap = { version = "4", default-features = false, features = ["std", "derive", "env"] }
colored = "2"
futures-util = { version = "0.3", default-features = false, features = ["std"] }
reqwest = { version = "0.12", default-features = false, features = ["json"] }
serde = { version = "1", features = ["derive"] }
tokio = { version = "1", features = ["macros", "rt-multi-thread"] }
