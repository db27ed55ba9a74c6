[package]
name = "nuuslees"
version = "0.1.0"
edition = "2021"
publish = false

[dependencies]
chrono = { version = "0.4", default-features = false, features = ["clock", "std"] }
rss = { version = "2", default-features = false }
html5ever = "0.27"
markup5ever_rcdom = "0.3"
ratatui = "0.26"
crossterm = "0.27"
tokio = { version = "1", features = ["rt-multi-thread", "macros", "sync", "time"] }
reqwest = "0.11"
readability = "0.3"
rusqlite = { version = "0.31", features = ["bundled"] }
serde = { version = "1", features = ["derive"] }
config = { version = "0.14", default-features = false, features = ["toml"] }
color-eyre = "0.6"
log = "0.4"
strum = { version = "0.26", features = ["derive"] }
thiserror = "1"
clap = { version = "4", features = ["cargo"] }
