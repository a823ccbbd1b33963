[package]
name = "render_core"
version = "0.1.0"
edition = "2021"
publish = false

[dependencies]
axum = "0.7"
bytemuck = { version = "=1.25.2", features = ["derive"] }
cgmath = "=0.18.0"
clap = { version = "4", features = ["derive"] }
gloo = { version = "0.11", default-features = false, features = ["timers"] }
http-body-util = "0.1"
log = "=0.4.34"
tokio = { version = "1", features = ["fs", "macros", "net", "rt-multi-thread"] }
tower = { version = "0.4", features = ["util"] }
tower-http = { version = "0.5", features = ["fs", "trace"] }
tower-service = "0.3"
tracing-subscriber = { version = "0.3", default-features = false, features = ["ansi", "fmt"] }
vercel_runtime = "1"
web-sys = { version = "0.3", features = ["HtmlCanvasElement", "KeyboardEvent"] }
wgpu = "=25.0.2"
winit = { version = "=0.30.13", default-features = false, features = ["rwh_06", "x11"] }
yew = { version = "0.21", features = ["csr"] }
