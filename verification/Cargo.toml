[package]
name = "wire"
version = "1.3.0"
edition = "2021"
publish = false

[dependencies]
aho-corasick = "=1.1.5"
base64 = "=0.22.1"
clap = { version = "=4.6.7", features = ["derive", "string", "cargo"] }
clap-markdown = "=0.1.5"
clap-num = "=1.2.0"
clap-verbosity-flag = "=3.0.4"
clap_complete = { version = "=4.6.11", features = ["unstable-dynamic"] }
clap_mangen = "=0.3.3"
console = "=0.16.6"
futures-util = { version = "=0.3.34", features = ["sink"] }
gethostname = "=1.1.0"
im = "=15.1.0"
nix = { version = "=0.30.1", features = ["fs", "user"] }
owo-colors = { version = "=4.4.0", features = ["supports-colors"] }
petgraph = "=0.8.3"
prost = "=0.14.4"
semver = "=1.0.28"
serde = { version = "=1.0.229", features = ["derive"] }
serde_json = "=1.0.154"
sha2 = "=0.10.9"
signal-hook = "=0.3.18"
signal-hook-tokio = { version = "=0.3.1", features = ["futures-v0_3"] }
sqlx = { version = "=0.8.6", default-features = false, features = ["sqlite", "runtime-tokio", "migrate"] }
strip-ansi-escapes = "=0.2.1"
termion = "=4.0.6"
tokio = { version = "=1.54.1", features = ["full"] }
tokio-util = { version = "=0.7.20", features = ["codec"] }
tracing = "=0.1.44"
tracing-subscriber = "=0.3.23"
zstd = "=0.13.4"
