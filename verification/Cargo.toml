[package]
name = "vocadou_site"
version = "0.1.0"
edition = "2021"
publish = false

[dependencies]
anyhow = "=1.0.104"
base64 = "=0.22.1"
camino = "=1.2.6"
clap = { version = "=4.6.7", features = ["derive"] }
eyre = "=0.6.14"
fancy-duration = "=0.9.2"
hauchiwa = { version = "=0.23.0", features = ["logging"] }
indexmap = { version = "=2.14.2", features = ["serde"] }
lol_html = "=3.0.3"
maud = "=0.27.0"
minijinja = "=2.24.0"
minijinja-contrib = { version = "=2.24.0", features = ["pycompat"] }
pulldown-cmark = "=0.13.6"
seahash = "=4.1.0"
serde = { version = "=1.0.229", features = ["derive"] }
time = { version = "=0.3.55", features = ["macros", "formatting", "parsing", "serde"] }
toml = "=1.2.1"
url = { version = "=2.5.8", features = ["serde"] }
urlencoding = "=2.1.3"
