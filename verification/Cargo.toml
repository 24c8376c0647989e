[package]
name = "render_bench"
version = "0.1.0"
edition = "2021"
publish = false

[dependencies]
tiny-skia = "=0.11.4"
softbuffer = "=0.4.8"
winit = "=0.30.13"
vello = "=0.5.1"
web-sys = { version = "=0.3.107", features = ["Window", "Document", "Element", "HtmlElement", "HtmlCanvasElement", "Node", "Performance", "Event", "EventTarget", "console"] }
js-sys = "=0.3.107"
wasm-bindgen = "=0.2.130"
wasm-bindgen-futures = "=0.4.80"
console_error_panic_hook = "=0.1.7"
anyhow = "=1.0.104"
