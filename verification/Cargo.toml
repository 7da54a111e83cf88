[package]
name = "web_pointer"
version = "0.1.0"
edition = "2021"
publish = false

[dependencies]
wasm-bindgen = "=0.2.130"
js-sys = "=0.3.107"
web-sys = { version = "=0.3.107", features = ["Event", "EventTarget", "MouseEvent", "PointerEvent", "Element", "HtmlElement", "HtmlCanvasElement", "console"] }
tracing = "0.1"
