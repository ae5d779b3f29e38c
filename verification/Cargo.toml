[package]
name = "cloud_champion"
version = "0.1.0"
edition = "2021"
publish = false

[dependencies]
rand = "0.8"
rand_distr = "0.4"
rand_pcg = "0.3"
serde = { version = "1", features = ["derive"] }
serde_json = "1"
gloo-console = "0.3"
gloo-timers = "0.3"
js-sys = "0.3"
web-sys = { version = "0.3", features = ["Storage", "Window", "HtmlAudioElement", "HtmlMediaElement"] }
yew = { version = "0.21", features = ["csr"] }
